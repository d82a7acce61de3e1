//! Typed values, the types of signature slots, names, and the wire form of
//! each.

use vstd::prelude::*;
use vstd::std_specs::cmp::PartialEqSpec;
use vstd::std_specs::convert::FromSpecImpl;

verus! {

/// The wire code of a 32-bit integer slot.
pub const VAL_TYPE_I32: u32 = 0x7F;

/// The wire code of a 64-bit integer slot.
pub const VAL_TYPE_I64: u32 = 0x7E;

/// The wire code of a 32-bit float slot.
pub const VAL_TYPE_F32: u32 = 0x7D;

/// The wire code of a 64-bit float slot.
pub const VAL_TYPE_F64: u32 = 0x7C;

/// The wire code of a 128-bit vector slot.
pub const VAL_TYPE_V128: u32 = 0x7B;

/// The wire code of a function reference slot.
pub const VAL_TYPE_FUNC_REF: u32 = 0x70;

/// The wire code of an external reference slot.
pub const VAL_TYPE_EXTERN_REF: u32 = 0x6F;

/// The bytes of a text in UTF-8.
pub open spec fn text_bytes(text: Seq<char>) -> Seq<u8> {
    vstd::utf8::encode_utf8(text)
}

/// Whether `i` is the position of the first zero byte of `bytes`.
pub open spec fn is_first_nul(bytes: Seq<u8>, i: int) -> bool {
    &&& 0 <= i < bytes.len()
    &&& bytes[i] == 0
    &&& forall|j: int| 0 <= j < i ==> bytes[j] != 0
}

/// Whether `bytes` holds a zero byte.
pub open spec fn has_nul(bytes: Seq<u8>) -> bool {
    exists|i: int| 0 <= i < bytes.len() && bytes[i] == 0
}

/// The position of the first zero byte, if there is one.
pub fn find_nul(bytes: &[u8]) -> (r: Option<usize>)
    ensures
        r is Some <==> has_nul(bytes@),
        r matches Some(i) ==> is_first_nul(bytes@, i as int),
{
    let mut i: usize = 0;
    while i < bytes.len()
        invariant
            i <= bytes@.len(),
            forall|j: int| 0 <= j < i ==> bytes@[j] != 0,
        decreases bytes@.len() - i,
    {
        if bytes[i] == 0 {
            return Some(i);
        }
        i += 1;
    }
    None
}

/// A name in the form that the engine interns: text that holds no zero
/// byte, so that a zero byte can end it.
#[derive(Debug)]
pub struct WasmEdgeString {
    text: String,
}

impl WasmEdgeString {
    /// The text of the name.
    pub closed spec fn view(&self) -> Seq<char> {
        self.text@
    }

    /// The name `s`, or the position of the first zero byte in it.
    pub fn new(s: &str) -> (r: Result<Self, usize>)
        ensures
            r is Err <==> has_nul(text_bytes(s@)),
            r matches Ok(name) ==> name@ == s@,
            r matches Err(at) ==> is_first_nul(text_bytes(s@), at as int),
    {
        match find_nul(s.as_bytes()) {
            Some(at) => Err(at),
            None => Ok(WasmEdgeString { text: s.to_owned() }),
        }
    }

    /// The text of the name.
    pub fn as_str(&self) -> (s: &str)
        ensures
            s@ == self@,
    {
        self.text.as_str()
    }

    /// The text of the name, owned.
    pub fn into_string(self) -> (s: String)
        ensures
            s@ == self@,
    {
        self.text
    }
}

/// The type of one slot of a function signature.
#[derive(Debug, Copy, Clone, Eq, PartialEq, Structural)]
pub enum ValType {
    /// 32-bit integer, neither signed nor unsigned by itself.
    I32,
    /// 64-bit integer, neither signed nor unsigned by itself.
    I64,
    /// 32-bit IEEE 754 number.
    F32,
    /// 64-bit IEEE 754 number.
    F64,
    /// 128 bits of packed data.
    V128,
    /// A reference to a function.
    FuncRef,
    /// A reference to an object of the host.
    ExternRef,
    /// A reference of a kind that the wire format cannot name.
    UnsupportedRef,
}

impl ValType {
    /// The wire code of this type. A reference that the wire format cannot
    /// name travels as an external reference.
    pub open spec fn spec_code(self) -> u32 {
        match self {
            ValType::I32 => VAL_TYPE_I32,
            ValType::I64 => VAL_TYPE_I64,
            ValType::F32 => VAL_TYPE_F32,
            ValType::F64 => VAL_TYPE_F64,
            ValType::V128 => VAL_TYPE_V128,
            ValType::FuncRef => VAL_TYPE_FUNC_REF,
            ValType::ExternRef => VAL_TYPE_EXTERN_REF,
            ValType::UnsupportedRef => VAL_TYPE_EXTERN_REF,
        }
    }

    /// The type that a wire code names; a code with no name of its own is
    /// an unsupported reference.
    pub open spec fn spec_from_code(code: u32) -> ValType {
        if code == VAL_TYPE_I32 {
            ValType::I32
        } else if code == VAL_TYPE_I64 {
            ValType::I64
        } else if code == VAL_TYPE_F32 {
            ValType::F32
        } else if code == VAL_TYPE_F64 {
            ValType::F64
        } else if code == VAL_TYPE_V128 {
            ValType::V128
        } else if code == VAL_TYPE_FUNC_REF {
            ValType::FuncRef
        } else if code == VAL_TYPE_EXTERN_REF {
            ValType::ExternRef
        } else {
            ValType::UnsupportedRef
        }
    }

    /// Whether values of this type are plain numbers, carried by value.
    pub open spec fn spec_is_numeric(self) -> bool {
        self is I32 || self is I64 || self is F32 || self is F64 || self is V128
    }
}

impl From<u32> for ValType {
    fn from(value: u32) -> (t: ValType) {
        match value {
            VAL_TYPE_I32 => ValType::I32,
            VAL_TYPE_I64 => ValType::I64,
            VAL_TYPE_F32 => ValType::F32,
            VAL_TYPE_F64 => ValType::F64,
            VAL_TYPE_V128 => ValType::V128,
            VAL_TYPE_FUNC_REF => ValType::FuncRef,
            VAL_TYPE_EXTERN_REF => ValType::ExternRef,
            _ => ValType::UnsupportedRef,
        }
    }
}

impl FromSpecImpl<u32> for ValType {
    open spec fn obeys_from_spec() -> bool {
        true
    }

    open spec fn from_spec(value: u32) -> ValType {
        ValType::spec_from_code(value)
    }
}

impl From<ValType> for u32 {
    fn from(value: ValType) -> (code: u32) {
        match value {
            ValType::I32 => VAL_TYPE_I32,
            ValType::I64 => VAL_TYPE_I64,
            ValType::F32 => VAL_TYPE_F32,
            ValType::F64 => VAL_TYPE_F64,
            ValType::V128 => VAL_TYPE_V128,
            ValType::FuncRef => VAL_TYPE_FUNC_REF,
            ValType::ExternRef => VAL_TYPE_EXTERN_REF,
            ValType::UnsupportedRef => VAL_TYPE_EXTERN_REF,
        }
    }
}

impl FromSpecImpl<ValType> for u32 {
    open spec fn obeys_from_spec() -> bool {
        true
    }

    open spec fn from_spec(value: ValType) -> u32 {
        value.spec_code()
    }
}

/// A type that the wire format names keeps its identity through its code.
pub proof fn lemma_val_type_round_trip(t: ValType)
    requires
        !(t is UnsupportedRef),
    ensures
        ValType::spec_from_code(t.spec_code()) == t,
{
}

/// A value as it crosses the native call boundary: 128 bits of payload and
/// the wire code of its type.
#[derive(Debug, Copy, Clone, Eq, PartialEq, Structural)]
pub struct RawValue {
    pub value: u128,
    pub ty: u32,
}

/// A typed value. The two float variants hold the IEEE 754 bit pattern of
/// the number, so that a value is compared and carried bit for bit.
#[derive(Debug, Copy, Clone)]
pub enum WasmVal {
    I32(i32),
    I64(i64),
    F32(u32),
    F64(u64),
    V128(i128),
    /// A value whose type this layer does not interpret, kept as received.
    UnknownType(RawValue),
}

impl WasmVal {
    /// Whether this is one of the five variants that are carried by value.
    pub open spec fn spec_is_numeric(self) -> bool {
        !(self is UnknownType)
    }

    /// Whether this is one of the five variants that are carried by value.
    pub fn is_numeric(&self) -> (b: bool)
        ensures
            b == self.spec_is_numeric(),
    {
        match self {
            WasmVal::UnknownType(_) => false,
            _ => true,
        }
    }

    /// The wire form: the payload sits in the low bits, the rest is zero.
    /// A value of uninterpreted type goes out as it came in.
    pub open spec fn spec_encode(self) -> RawValue {
        match self {
            WasmVal::I32(n) => RawValue { value: (n as u32) as u128, ty: VAL_TYPE_I32 },
            WasmVal::I64(n) => RawValue { value: (n as u64) as u128, ty: VAL_TYPE_I64 },
            WasmVal::F32(b) => RawValue { value: b as u128, ty: VAL_TYPE_F32 },
            WasmVal::F64(b) => RawValue { value: b as u128, ty: VAL_TYPE_F64 },
            WasmVal::V128(n) => RawValue { value: n as u128, ty: VAL_TYPE_V128 },
            WasmVal::UnknownType(raw) => raw,
        }
    }

    /// The typed reading of a wire value: the low bits of the payload under
    /// the type that the code names. A value whose code names no numeric
    /// type is kept whole.
    pub open spec fn spec_decode(raw: RawValue) -> WasmVal {
        if raw.ty == VAL_TYPE_I32 {
            WasmVal::I32((raw.value as u32) as i32)
        } else if raw.ty == VAL_TYPE_I64 {
            WasmVal::I64((raw.value as u64) as i64)
        } else if raw.ty == VAL_TYPE_F32 {
            WasmVal::F32(raw.value as u32)
        } else if raw.ty == VAL_TYPE_F64 {
            WasmVal::F64(raw.value as u64)
        } else if raw.ty == VAL_TYPE_V128 {
            WasmVal::V128(raw.value as i128)
        } else {
            WasmVal::UnknownType(raw)
        }
    }

    /// The type of the slot that this value fills.
    pub fn val_type(&self) -> (t: ValType)
        ensures
            t == ValType::spec_from_code(self.spec_encode().ty),
            self.spec_is_numeric() ==> t.spec_is_numeric() && t.spec_code() == self.spec_encode().ty,
    {
        match self {
            WasmVal::I32(_) => ValType::I32,
            WasmVal::I64(_) => ValType::I64,
            WasmVal::F32(_) => ValType::F32,
            WasmVal::F64(_) => ValType::F64,
            WasmVal::V128(_) => ValType::V128,
            WasmVal::UnknownType(raw) => ValType::from(raw.ty),
        }
    }
}

impl From<RawValue> for WasmVal {
    fn from(raw_val: RawValue) -> (v: WasmVal) {
        match raw_val.ty {
            VAL_TYPE_I32 => WasmVal::I32((raw_val.value as u32) as i32),
            VAL_TYPE_I64 => WasmVal::I64((raw_val.value as u64) as i64),
            VAL_TYPE_F32 => WasmVal::F32(raw_val.value as u32),
            VAL_TYPE_F64 => WasmVal::F64(raw_val.value as u64),
            VAL_TYPE_V128 => WasmVal::V128(raw_val.value as i128),
            _ => WasmVal::UnknownType(raw_val),
        }
    }
}

impl FromSpecImpl<RawValue> for WasmVal {
    open spec fn obeys_from_spec() -> bool {
        true
    }

    open spec fn from_spec(raw_val: RawValue) -> WasmVal {
        WasmVal::spec_decode(raw_val)
    }
}

impl From<WasmVal> for RawValue {
    fn from(v: WasmVal) -> (raw: RawValue) {
        match v {
            WasmVal::I32(n) => RawValue { value: (n as u32) as u128, ty: VAL_TYPE_I32 },
            WasmVal::I64(n) => RawValue { value: (n as u64) as u128, ty: VAL_TYPE_I64 },
            WasmVal::F32(b) => RawValue { value: b as u128, ty: VAL_TYPE_F32 },
            WasmVal::F64(b) => RawValue { value: b as u128, ty: VAL_TYPE_F64 },
            WasmVal::V128(n) => RawValue { value: n as u128, ty: VAL_TYPE_V128 },
            WasmVal::UnknownType(raw) => raw,
        }
    }
}

impl FromSpecImpl<WasmVal> for RawValue {
    open spec fn obeys_from_spec() -> bool {
        true
    }

    open spec fn from_spec(v: WasmVal) -> RawValue {
        v.spec_encode()
    }
}

impl PartialEq for WasmVal {
    fn eq(&self, other: &Self) -> (r: bool) {
        match (self, other) {
            (WasmVal::I32(i), WasmVal::I32(other)) => *i == *other,
            (WasmVal::I64(i), WasmVal::I64(other)) => *i == *other,
            (WasmVal::F32(i), WasmVal::F32(other)) => *i == *other,
            (WasmVal::F64(i), WasmVal::F64(other)) => *i == *other,
            (WasmVal::V128(i), WasmVal::V128(other)) => *i == *other,
            _ => false,
        }
    }
}

impl vstd::std_specs::cmp::PartialEqSpecImpl for WasmVal {
    open spec fn obeys_eq_spec() -> bool {
        true
    }

    open spec fn eq_spec(&self, other: &WasmVal) -> bool {
        match (*self, *other) {
            (WasmVal::I32(a), WasmVal::I32(b)) => a == b,
            (WasmVal::I64(a), WasmVal::I64(b)) => a == b,
            (WasmVal::F32(a), WasmVal::F32(b)) => a == b,
            (WasmVal::F64(a), WasmVal::F64(b)) => a == b,
            (WasmVal::V128(a), WasmVal::V128(b)) => a == b,
            _ => false,
        }
    }
}

/// Two values are equal exactly when both are carried by value and their
/// wire forms agree in type and in every bit. Values of different variants
/// are unequal, and a value of uninterpreted type equals nothing, not even
/// itself.
pub proof fn lemma_equality_is_bit_equality(a: WasmVal, b: WasmVal)
    ensures
        a.eq_spec(&b) <==> (a.spec_is_numeric() && b.spec_is_numeric() && a.spec_encode()
            == b.spec_encode()),
        a.eq_spec(&b) ==> a == b,
{
    if a.spec_is_numeric() && b.spec_is_numeric() && a.spec_encode() == b.spec_encode() {
        lemma_codec_round_trip(a);
        lemma_codec_round_trip(b);
    }
}

/// A value that is carried by value survives the wire unchanged, bit for bit.
pub proof fn lemma_codec_round_trip(v: WasmVal)
    requires
        v.spec_is_numeric(),
    ensures
        WasmVal::spec_decode(v.spec_encode()) == v,
{
    match v {
        WasmVal::I32(n) => {
            assert((((n as u32) as u128) as u32) as i32 == n) by (bit_vector);
        },
        WasmVal::I64(n) => {
            assert((((n as u64) as u128) as u64) as i64 == n) by (bit_vector);
        },
        WasmVal::F32(b) => {
            assert(((b as u128) as u32) == b) by (bit_vector);
        },
        WasmVal::F64(b) => {
            assert(((b as u128) as u64) == b) by (bit_vector);
        },
        WasmVal::V128(n) => {
            assert(((n as u128) as i128) == n) by (bit_vector);
        },
        WasmVal::UnknownType(_) => {},
    }
}

/// A wire value of uninterpreted type survives decoding and encoding whole.
pub proof fn lemma_unknown_passes_through(raw: RawValue)
    requires
        !ValType::spec_from_code(raw.ty).spec_is_numeric(),
    ensures
        WasmVal::spec_decode(raw) == WasmVal::UnknownType(raw),
        WasmVal::spec_decode(raw).spec_encode() == raw,
{
}

} // verus!
