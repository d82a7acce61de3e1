//! Failures and their wire form: a category and a code.

use vstd::prelude::*;

verus! {

/// Failures that belong to no single phase of the engine.
#[derive(Clone, Copy, Debug, PartialEq, Eq, Structural)]
pub enum CoreCommonError {
    Terminated,
    RuntimeError,
    CostLimitExceeded,
    WrongVMWorkflow,
    FuncNotFound,
    AOTDisabled,
    Interrupted,
    UserDefError,
    NotValidated,
}

impl CoreCommonError {
    /// The number that stands for this failure on the wire.
    pub open spec fn spec_code(self) -> u32 {
        match self {
            CoreCommonError::Terminated => 0x01,
            CoreCommonError::RuntimeError => 0x02,
            CoreCommonError::CostLimitExceeded => 0x03,
            CoreCommonError::WrongVMWorkflow => 0x04,
            CoreCommonError::FuncNotFound => 0x05,
            CoreCommonError::AOTDisabled => 0x06,
            CoreCommonError::Interrupted => 0x07,
            CoreCommonError::NotValidated => 0x08,
            CoreCommonError::UserDefError => 0x09,
        }
    }

    /// The number that stands for this failure on the wire.
    pub fn code(&self) -> (c: u32)
        ensures
            c == self.spec_code(),
    {
        match self {
            CoreCommonError::Terminated => 0x01,
            CoreCommonError::RuntimeError => 0x02,
            CoreCommonError::CostLimitExceeded => 0x03,
            CoreCommonError::WrongVMWorkflow => 0x04,
            CoreCommonError::FuncNotFound => 0x05,
            CoreCommonError::AOTDisabled => 0x06,
            CoreCommonError::Interrupted => 0x07,
            CoreCommonError::NotValidated => 0x08,
            CoreCommonError::UserDefError => 0x09,
        }
    }

    /// The failure that a wire number of this phase stands for, if any.
    pub fn from_code(code: u32) -> (r: Option<CoreCommonError>)
        ensures
            r is Some <==> 0x01 <= code <= 0x09,
            r matches Some(e) ==> e.spec_code() == code,
    {
        match code {
            0x01 => Some(CoreCommonError::Terminated),
            0x02 => Some(CoreCommonError::RuntimeError),
            0x03 => Some(CoreCommonError::CostLimitExceeded),
            0x04 => Some(CoreCommonError::WrongVMWorkflow),
            0x05 => Some(CoreCommonError::FuncNotFound),
            0x06 => Some(CoreCommonError::AOTDisabled),
            0x07 => Some(CoreCommonError::Interrupted),
            0x08 => Some(CoreCommonError::NotValidated),
            0x09 => Some(CoreCommonError::UserDefError),
            _ => None,
        }
    }
}

/// Failures of the load phase: the binary is malformed.
#[derive(Clone, Copy, Debug, PartialEq, Eq, Structural)]
pub enum CoreLoadError {
    IllegalPath,
    ReadError,
    UnexpectedEnd,
    MalformedMagic,
    MalformedVersion,
    MalformedSection,
    SectionSizeMismatch,
    NameSizeOutOfBounds,
    JunkSection,
    IncompatibleFuncCode,
    IncompatibleDataCount,
    DataCountRequired,
    MalformedImportKind,
    MalformedExportKind,
    ExpectedZeroByte,
    InvalidMut,
    TooManyLocals,
    MalformedValType,
    MalformedElemType,
    MalformedRefType,
    MalformedUTF8,
    IntegerTooLarge,
    IntegerTooLong,
    IllegalOpCode,
    IllegalGrammar,
}

impl CoreLoadError {
    /// The number that stands for this failure on the wire.
    pub open spec fn spec_code(self) -> u32 {
        match self {
            CoreLoadError::IllegalPath => 0x20,
            CoreLoadError::ReadError => 0x21,
            CoreLoadError::UnexpectedEnd => 0x22,
            CoreLoadError::MalformedMagic => 0x23,
            CoreLoadError::MalformedVersion => 0x24,
            CoreLoadError::MalformedSection => 0x25,
            CoreLoadError::SectionSizeMismatch => 0x26,
            CoreLoadError::NameSizeOutOfBounds => 0x27,
            CoreLoadError::JunkSection => 0x28,
            CoreLoadError::IncompatibleFuncCode => 0x29,
            CoreLoadError::IncompatibleDataCount => 0x2A,
            CoreLoadError::DataCountRequired => 0x2B,
            CoreLoadError::MalformedImportKind => 0x2C,
            CoreLoadError::MalformedExportKind => 0x2D,
            CoreLoadError::ExpectedZeroByte => 0x2E,
            CoreLoadError::InvalidMut => 0x2F,
            CoreLoadError::TooManyLocals => 0x30,
            CoreLoadError::MalformedValType => 0x31,
            CoreLoadError::MalformedElemType => 0x32,
            CoreLoadError::MalformedRefType => 0x33,
            CoreLoadError::MalformedUTF8 => 0x34,
            CoreLoadError::IntegerTooLarge => 0x35,
            CoreLoadError::IntegerTooLong => 0x36,
            CoreLoadError::IllegalOpCode => 0x37,
            CoreLoadError::IllegalGrammar => 0x38,
        }
    }

    /// The number that stands for this failure on the wire.
    pub fn code(&self) -> (c: u32)
        ensures
            c == self.spec_code(),
    {
        match self {
            CoreLoadError::IllegalPath => 0x20,
            CoreLoadError::ReadError => 0x21,
            CoreLoadError::UnexpectedEnd => 0x22,
            CoreLoadError::MalformedMagic => 0x23,
            CoreLoadError::MalformedVersion => 0x24,
            CoreLoadError::MalformedSection => 0x25,
            CoreLoadError::SectionSizeMismatch => 0x26,
            CoreLoadError::NameSizeOutOfBounds => 0x27,
            CoreLoadError::JunkSection => 0x28,
            CoreLoadError::IncompatibleFuncCode => 0x29,
            CoreLoadError::IncompatibleDataCount => 0x2A,
            CoreLoadError::DataCountRequired => 0x2B,
            CoreLoadError::MalformedImportKind => 0x2C,
            CoreLoadError::MalformedExportKind => 0x2D,
            CoreLoadError::ExpectedZeroByte => 0x2E,
            CoreLoadError::InvalidMut => 0x2F,
            CoreLoadError::TooManyLocals => 0x30,
            CoreLoadError::MalformedValType => 0x31,
            CoreLoadError::MalformedElemType => 0x32,
            CoreLoadError::MalformedRefType => 0x33,
            CoreLoadError::MalformedUTF8 => 0x34,
            CoreLoadError::IntegerTooLarge => 0x35,
            CoreLoadError::IntegerTooLong => 0x36,
            CoreLoadError::IllegalOpCode => 0x37,
            CoreLoadError::IllegalGrammar => 0x38,
        }
    }

    /// The failure that a wire number of this phase stands for, if any.
    pub fn from_code(code: u32) -> (r: Option<CoreLoadError>)
        ensures
            r is Some <==> 0x20 <= code <= 0x38,
            r matches Some(e) ==> e.spec_code() == code,
    {
        match code {
            0x20 => Some(CoreLoadError::IllegalPath),
            0x21 => Some(CoreLoadError::ReadError),
            0x22 => Some(CoreLoadError::UnexpectedEnd),
            0x23 => Some(CoreLoadError::MalformedMagic),
            0x24 => Some(CoreLoadError::MalformedVersion),
            0x25 => Some(CoreLoadError::MalformedSection),
            0x26 => Some(CoreLoadError::SectionSizeMismatch),
            0x27 => Some(CoreLoadError::NameSizeOutOfBounds),
            0x28 => Some(CoreLoadError::JunkSection),
            0x29 => Some(CoreLoadError::IncompatibleFuncCode),
            0x2A => Some(CoreLoadError::IncompatibleDataCount),
            0x2B => Some(CoreLoadError::DataCountRequired),
            0x2C => Some(CoreLoadError::MalformedImportKind),
            0x2D => Some(CoreLoadError::MalformedExportKind),
            0x2E => Some(CoreLoadError::ExpectedZeroByte),
            0x2F => Some(CoreLoadError::InvalidMut),
            0x30 => Some(CoreLoadError::TooManyLocals),
            0x31 => Some(CoreLoadError::MalformedValType),
            0x32 => Some(CoreLoadError::MalformedElemType),
            0x33 => Some(CoreLoadError::MalformedRefType),
            0x34 => Some(CoreLoadError::MalformedUTF8),
            0x35 => Some(CoreLoadError::IntegerTooLarge),
            0x36 => Some(CoreLoadError::IntegerTooLong),
            0x37 => Some(CoreLoadError::IllegalOpCode),
            0x38 => Some(CoreLoadError::IllegalGrammar),
            _ => None,
        }
    }
}

/// Failures of the validation phase.
#[derive(Clone, Copy, Debug, PartialEq, Eq, Structural)]
pub enum CoreValidationError {
    InvalidAlignment,
    TypeCheckFailed,
    InvalidLabelIdx,
    InvalidLocalIdx,
    InvalidFuncTypeIdx,
    InvalidFuncIdx,
    InvalidTableIdx,
    InvalidMemoryIdx,
    InvalidGlobalIdx,
    InvalidElemIdx,
    InvalidDataIdx,
    InvalidRefIdx,
    ConstExprRequired,
    DupExportName,
    ImmutableGlobal,
    InvalidResultArity,
    MultiTables,
    MultiMemories,
    InvalidLimit,
    InvalidMemPages,
    InvalidStartFunc,
    InvalidLaneIdx,
}

impl CoreValidationError {
    /// The number that stands for this failure on the wire.
    pub open spec fn spec_code(self) -> u32 {
        match self {
            CoreValidationError::InvalidAlignment => 0x40,
            CoreValidationError::TypeCheckFailed => 0x41,
            CoreValidationError::InvalidLabelIdx => 0x42,
            CoreValidationError::InvalidLocalIdx => 0x43,
            CoreValidationError::InvalidFuncTypeIdx => 0x44,
            CoreValidationError::InvalidFuncIdx => 0x45,
            CoreValidationError::InvalidTableIdx => 0x46,
            CoreValidationError::InvalidMemoryIdx => 0x47,
            CoreValidationError::InvalidGlobalIdx => 0x48,
            CoreValidationError::InvalidElemIdx => 0x49,
            CoreValidationError::InvalidDataIdx => 0x4A,
            CoreValidationError::InvalidRefIdx => 0x4B,
            CoreValidationError::ConstExprRequired => 0x4C,
            CoreValidationError::DupExportName => 0x4D,
            CoreValidationError::ImmutableGlobal => 0x4E,
            CoreValidationError::InvalidResultArity => 0x4F,
            CoreValidationError::MultiTables => 0x50,
            CoreValidationError::MultiMemories => 0x51,
            CoreValidationError::InvalidLimit => 0x52,
            CoreValidationError::InvalidMemPages => 0x53,
            CoreValidationError::InvalidStartFunc => 0x54,
            CoreValidationError::InvalidLaneIdx => 0x55,
        }
    }

    /// The number that stands for this failure on the wire.
    pub fn code(&self) -> (c: u32)
        ensures
            c == self.spec_code(),
    {
        match self {
            CoreValidationError::InvalidAlignment => 0x40,
            CoreValidationError::TypeCheckFailed => 0x41,
            CoreValidationError::InvalidLabelIdx => 0x42,
            CoreValidationError::InvalidLocalIdx => 0x43,
            CoreValidationError::InvalidFuncTypeIdx => 0x44,
            CoreValidationError::InvalidFuncIdx => 0x45,
            CoreValidationError::InvalidTableIdx => 0x46,
            CoreValidationError::InvalidMemoryIdx => 0x47,
            CoreValidationError::InvalidGlobalIdx => 0x48,
            CoreValidationError::InvalidElemIdx => 0x49,
            CoreValidationError::InvalidDataIdx => 0x4A,
            CoreValidationError::InvalidRefIdx => 0x4B,
            CoreValidationError::ConstExprRequired => 0x4C,
            CoreValidationError::DupExportName => 0x4D,
            CoreValidationError::ImmutableGlobal => 0x4E,
            CoreValidationError::InvalidResultArity => 0x4F,
            CoreValidationError::MultiTables => 0x50,
            CoreValidationError::MultiMemories => 0x51,
            CoreValidationError::InvalidLimit => 0x52,
            CoreValidationError::InvalidMemPages => 0x53,
            CoreValidationError::InvalidStartFunc => 0x54,
            CoreValidationError::InvalidLaneIdx => 0x55,
        }
    }

    /// The failure that a wire number of this phase stands for, if any.
    pub fn from_code(code: u32) -> (r: Option<CoreValidationError>)
        ensures
            r is Some <==> 0x40 <= code <= 0x55,
            r matches Some(e) ==> e.spec_code() == code,
    {
        match code {
            0x40 => Some(CoreValidationError::InvalidAlignment),
            0x41 => Some(CoreValidationError::TypeCheckFailed),
            0x42 => Some(CoreValidationError::InvalidLabelIdx),
            0x43 => Some(CoreValidationError::InvalidLocalIdx),
            0x44 => Some(CoreValidationError::InvalidFuncTypeIdx),
            0x45 => Some(CoreValidationError::InvalidFuncIdx),
            0x46 => Some(CoreValidationError::InvalidTableIdx),
            0x47 => Some(CoreValidationError::InvalidMemoryIdx),
            0x48 => Some(CoreValidationError::InvalidGlobalIdx),
            0x49 => Some(CoreValidationError::InvalidElemIdx),
            0x4A => Some(CoreValidationError::InvalidDataIdx),
            0x4B => Some(CoreValidationError::InvalidRefIdx),
            0x4C => Some(CoreValidationError::ConstExprRequired),
            0x4D => Some(CoreValidationError::DupExportName),
            0x4E => Some(CoreValidationError::ImmutableGlobal),
            0x4F => Some(CoreValidationError::InvalidResultArity),
            0x50 => Some(CoreValidationError::MultiTables),
            0x51 => Some(CoreValidationError::MultiMemories),
            0x52 => Some(CoreValidationError::InvalidLimit),
            0x53 => Some(CoreValidationError::InvalidMemPages),
            0x54 => Some(CoreValidationError::InvalidStartFunc),
            0x55 => Some(CoreValidationError::InvalidLaneIdx),
            _ => None,
        }
    }
}

/// Failures of the instantiation phase.
#[derive(Clone, Copy, Debug, PartialEq, Eq, Structural)]
pub enum CoreInstantiationError {
    ModuleNameConflict,
    IncompatibleImportType,
    UnknownImport,
    DataSegDoesNotFit,
    ElemSegDoesNotFit,
}

impl CoreInstantiationError {
    /// The number that stands for this failure on the wire.
    pub open spec fn spec_code(self) -> u32 {
        match self {
            CoreInstantiationError::ModuleNameConflict => 0x60,
            CoreInstantiationError::IncompatibleImportType => 0x61,
            CoreInstantiationError::UnknownImport => 0x62,
            CoreInstantiationError::DataSegDoesNotFit => 0x63,
            CoreInstantiationError::ElemSegDoesNotFit => 0x64,
        }
    }

    /// The number that stands for this failure on the wire.
    pub fn code(&self) -> (c: u32)
        ensures
            c == self.spec_code(),
    {
        match self {
            CoreInstantiationError::ModuleNameConflict => 0x60,
            CoreInstantiationError::IncompatibleImportType => 0x61,
            CoreInstantiationError::UnknownImport => 0x62,
            CoreInstantiationError::DataSegDoesNotFit => 0x63,
            CoreInstantiationError::ElemSegDoesNotFit => 0x64,
        }
    }

    /// The failure that a wire number of this phase stands for, if any.
    pub fn from_code(code: u32) -> (r: Option<CoreInstantiationError>)
        ensures
            r is Some <==> 0x60 <= code <= 0x64,
            r matches Some(e) ==> e.spec_code() == code,
    {
        match code {
            0x60 => Some(CoreInstantiationError::ModuleNameConflict),
            0x61 => Some(CoreInstantiationError::IncompatibleImportType),
            0x62 => Some(CoreInstantiationError::UnknownImport),
            0x63 => Some(CoreInstantiationError::DataSegDoesNotFit),
            0x64 => Some(CoreInstantiationError::ElemSegDoesNotFit),
            _ => None,
        }
    }
}

/// Failures of the execution phase: traps and host failures.
#[derive(Clone, Copy, Debug, PartialEq, Eq, Structural)]
pub enum CoreExecutionError {
    WrongInstanceAddress,
    WrongInstanceIndex,
    InstrTypeMismatch,
    FuncTypeMismatch,
    DivideByZero,
    IntegerOverflow,
    InvalidConvToInt,
    TableOutOfBounds,
    MemoryOutOfBounds,
    Unreachable,
    UninitializedElement,
    UndefinedElement,
    IndirectCallTypeMismatch,
    HostFuncFailed,
    RefTypeMismatch,
    UnalignedAtomicAccess,
    WaitOnUnsharedMemory,
}

impl CoreExecutionError {
    /// The number that stands for this failure on the wire.
    pub open spec fn spec_code(self) -> u32 {
        match self {
            CoreExecutionError::WrongInstanceAddress => 0x80,
            CoreExecutionError::WrongInstanceIndex => 0x81,
            CoreExecutionError::InstrTypeMismatch => 0x82,
            CoreExecutionError::FuncTypeMismatch => 0x83,
            CoreExecutionError::DivideByZero => 0x84,
            CoreExecutionError::IntegerOverflow => 0x85,
            CoreExecutionError::InvalidConvToInt => 0x86,
            CoreExecutionError::TableOutOfBounds => 0x87,
            CoreExecutionError::MemoryOutOfBounds => 0x88,
            CoreExecutionError::Unreachable => 0x89,
            CoreExecutionError::UninitializedElement => 0x8A,
            CoreExecutionError::UndefinedElement => 0x8B,
            CoreExecutionError::IndirectCallTypeMismatch => 0x8C,
            CoreExecutionError::HostFuncFailed => 0x8D,
            CoreExecutionError::RefTypeMismatch => 0x8E,
            CoreExecutionError::UnalignedAtomicAccess => 0x8F,
            CoreExecutionError::WaitOnUnsharedMemory => 0x90,
        }
    }

    /// The number that stands for this failure on the wire.
    pub fn code(&self) -> (c: u32)
        ensures
            c == self.spec_code(),
    {
        match self {
            CoreExecutionError::WrongInstanceAddress => 0x80,
            CoreExecutionError::WrongInstanceIndex => 0x81,
            CoreExecutionError::InstrTypeMismatch => 0x82,
            CoreExecutionError::FuncTypeMismatch => 0x83,
            CoreExecutionError::DivideByZero => 0x84,
            CoreExecutionError::IntegerOverflow => 0x85,
            CoreExecutionError::InvalidConvToInt => 0x86,
            CoreExecutionError::TableOutOfBounds => 0x87,
            CoreExecutionError::MemoryOutOfBounds => 0x88,
            CoreExecutionError::Unreachable => 0x89,
            CoreExecutionError::UninitializedElement => 0x8A,
            CoreExecutionError::UndefinedElement => 0x8B,
            CoreExecutionError::IndirectCallTypeMismatch => 0x8C,
            CoreExecutionError::HostFuncFailed => 0x8D,
            CoreExecutionError::RefTypeMismatch => 0x8E,
            CoreExecutionError::UnalignedAtomicAccess => 0x8F,
            CoreExecutionError::WaitOnUnsharedMemory => 0x90,
        }
    }

    /// The failure that a wire number of this phase stands for, if any.
    pub fn from_code(code: u32) -> (r: Option<CoreExecutionError>)
        ensures
            r is Some <==> 0x80 <= code <= 0x90,
            r matches Some(e) ==> e.spec_code() == code,
    {
        match code {
            0x80 => Some(CoreExecutionError::WrongInstanceAddress),
            0x81 => Some(CoreExecutionError::WrongInstanceIndex),
            0x82 => Some(CoreExecutionError::InstrTypeMismatch),
            0x83 => Some(CoreExecutionError::FuncTypeMismatch),
            0x84 => Some(CoreExecutionError::DivideByZero),
            0x85 => Some(CoreExecutionError::IntegerOverflow),
            0x86 => Some(CoreExecutionError::InvalidConvToInt),
            0x87 => Some(CoreExecutionError::TableOutOfBounds),
            0x88 => Some(CoreExecutionError::MemoryOutOfBounds),
            0x89 => Some(CoreExecutionError::Unreachable),
            0x8A => Some(CoreExecutionError::UninitializedElement),
            0x8B => Some(CoreExecutionError::UndefinedElement),
            0x8C => Some(CoreExecutionError::IndirectCallTypeMismatch),
            0x8D => Some(CoreExecutionError::HostFuncFailed),
            0x8E => Some(CoreExecutionError::RefTypeMismatch),
            0x8F => Some(CoreExecutionError::UnalignedAtomicAccess),
            0x90 => Some(CoreExecutionError::WaitOnUnsharedMemory),
            _ => None,
        }
    }
}
/// The category of results that the engine itself produces.
pub const ERR_CATEGORY_WASM: u32 = 0;

/// The category of results that carry a code chosen by the embedding application.
pub const ERR_CATEGORY_USER: u32 = 1;

/// The two-field result that crosses the native call boundary.
#[derive(Clone, Copy, Debug, PartialEq, Eq, Structural)]
pub struct RawResult {
    pub category: u32,
    pub code: u32,
}

impl RawResult {
    /// The result that reports success.
    pub fn success() -> (r: RawResult)
        ensures
            r.category == ERR_CATEGORY_WASM,
            r.code == 0,
    {
        RawResult { category: ERR_CATEGORY_WASM, code: 0 }
    }

    /// A result counts as a success when the engine's own category carries
    /// the code for success or the code for a regular termination.
    pub open spec fn spec_is_ok(self) -> bool {
        self.category == ERR_CATEGORY_WASM && self.code <= 1
    }

    /// Whether this result reports success.
    pub fn is_ok(&self) -> (b: bool)
        ensures
            b == self.spec_is_ok(),
    {
        self.category == ERR_CATEGORY_WASM && self.code <= 1
    }
}

/// Every failure that the engine or a host function can report.
#[derive(Clone, Copy, Debug, PartialEq, Eq, Structural)]
pub enum CoreError {
    Common(CoreCommonError),
    Load(CoreLoadError),
    Validation(CoreValidationError),
    Instantiation(CoreInstantiationError),
    Execution(CoreExecutionError),
    /// A code chosen by the embedding application, carried without interpretation.
    User(u32),
    /// Not a failure: the call asks to be resumed through asyncify.
    Asyncify,
    /// Not a failure: the call asks for cooperative suspension.
    Yield,
}

/// The wire numbers that the engine's own category assigns to a failure.
pub open spec fn is_engine_code(code: u32) -> bool {
    ||| 0x01 <= code <= 0x0B
    ||| 0x20 <= code <= 0x38
    ||| 0x40 <= code <= 0x55
    ||| 0x60 <= code <= 0x64
    ||| 0x80 <= code <= 0x90
}

/// What a nonzero code of the engine's own category means: an assigned
/// number stands for the one failure that carries it, every other number for
/// the generic runtime failure.
pub open spec fn decodes_to(code: u32, e: CoreError) -> bool {
    if is_engine_code(code) {
        !(e is User) && e.spec_code() == code
    } else {
        e == CoreError::Common(CoreCommonError::RuntimeError)
    }
}

/// What the engine's result means to a caller.
pub open spec fn check_outcome(result: RawResult, r: Result<(), CoreError>) -> bool {
    if result.category == ERR_CATEGORY_USER {
        r == Err::<(), CoreError>(CoreError::User(result.code))
    } else if result.category == ERR_CATEGORY_WASM {
        if result.code <= 1 {
            r is Ok
        } else {
            r matches Err(e) && decodes_to(result.code, e)
        }
    } else {
        r == Err::<(), CoreError>(CoreError::Common(CoreCommonError::RuntimeError))
    }
}

impl CoreError {
    /// The number that stands for this failure on the wire.
    pub open spec fn spec_code(self) -> u32 {
        match self {
            CoreError::Common(e) => e.spec_code(),
            CoreError::Load(e) => e.spec_code(),
            CoreError::Validation(e) => e.spec_code(),
            CoreError::Instantiation(e) => e.spec_code(),
            CoreError::Execution(e) => e.spec_code(),
            CoreError::User(c) => c,
            CoreError::Asyncify => 0x0A,
            CoreError::Yield => 0x0B,
        }
    }

    /// The category under which this failure travels.
    pub open spec fn spec_category(self) -> u32 {
        if self is User {
            ERR_CATEGORY_USER
        } else {
            ERR_CATEGORY_WASM
        }
    }

    /// The generic runtime failure.
    pub fn runtime() -> (e: CoreError)
        ensures
            e == CoreError::Common(CoreCommonError::RuntimeError),
    {
        CoreError::Common(CoreCommonError::RuntimeError)
    }

    /// The failure that reports a regular termination.
    pub fn terminated() -> (e: CoreError)
        ensures
            e == CoreError::Common(CoreCommonError::Terminated),
    {
        CoreError::Common(CoreCommonError::Terminated)
    }

    /// Whether this value is the request for cooperative suspension.
    pub fn is_yield(&self) -> (b: bool)
        ensures
            b == (*self is Yield),
    {
        match self {
            CoreError::Yield => true,
            _ => false,
        }
    }

    /// The wire form of this failure.
    pub fn to_raw(&self) -> (r: RawResult)
        ensures
            r.category == self.spec_category(),
            r.code == self.spec_code(),
    {
        match self {
            CoreError::Common(e) => RawResult { category: ERR_CATEGORY_WASM, code: e.code() },
            CoreError::Load(e) => RawResult { category: ERR_CATEGORY_WASM, code: e.code() },
            CoreError::Validation(e) => RawResult { category: ERR_CATEGORY_WASM, code: e.code() },
            CoreError::Instantiation(e) => RawResult {
                category: ERR_CATEGORY_WASM,
                code: e.code(),
            },
            CoreError::Execution(e) => RawResult { category: ERR_CATEGORY_WASM, code: e.code() },
            CoreError::User(user_code) => RawResult {
                category: ERR_CATEGORY_USER,
                code: *user_code,
            },
            CoreError::Asyncify => RawResult { category: ERR_CATEGORY_WASM, code: 0x0A },
            CoreError::Yield => RawResult { category: ERR_CATEGORY_WASM, code: 0x0B },
        }
    }
}

impl From<CoreError> for RawResult {
    fn from(e: CoreError) -> (r: RawResult) {
        e.to_raw()
    }
}

impl vstd::std_specs::convert::FromSpecImpl<CoreError> for RawResult {
    open spec fn obeys_from_spec() -> bool {
        true
    }

    open spec fn from_spec(e: CoreError) -> RawResult {
        RawResult { category: e.spec_category(), code: e.spec_code() }
    }
}

/// Reads a code of the engine's own category: zero is success, an assigned
/// number is the failure that carries it, any other number is the generic
/// runtime failure.
pub fn gen_runtime_error(code: u32) -> (r: Result<(), CoreError>)
    ensures
        r is Ok <==> code == 0,
        r matches Err(e) ==> decodes_to(code, e),
{
    if code == 0x00 {
        return Ok(());
    }
    if code == 0x0A {
        return Err(CoreError::Asyncify);
    }
    if code == 0x0B {
        return Err(CoreError::Yield);
    }
    if let Some(e) = CoreCommonError::from_code(code) {
        return Err(CoreError::Common(e));
    }
    if let Some(e) = CoreLoadError::from_code(code) {
        return Err(CoreError::Load(e));
    }
    if let Some(e) = CoreValidationError::from_code(code) {
        return Err(CoreError::Validation(e));
    }
    if let Some(e) = CoreInstantiationError::from_code(code) {
        return Err(CoreError::Instantiation(e));
    }
    if let Some(e) = CoreExecutionError::from_code(code) {
        return Err(CoreError::Execution(e));
    }
    Err(CoreError::Common(CoreCommonError::RuntimeError))
}

/// Turns the engine's result into a `Result`: a success (a regular
/// termination included) is `Ok`, a result of the user category carries its
/// code through, and a category that is neither is the generic runtime
/// failure.
pub fn check(result: RawResult) -> (r: Result<(), CoreError>)
    ensures
        check_outcome(result, r),
{
    let category = result.category;
    let code: u32 = if !result.is_ok() {
        result.code
    } else {
        0u32
    };
    if category == ERR_CATEGORY_USER {
        Err(CoreError::User(code))
    } else if category == ERR_CATEGORY_WASM {
        gen_runtime_error(code)
    } else {
        Err(CoreError::runtime())
    }
}

/// No two failures of the engine's own category share a wire number.
pub proof fn lemma_code_identifies_error(a: CoreError, b: CoreError)
    requires
        !(a is User),
        !(b is User),
        a.spec_code() == b.spec_code(),
    ensures
        a == b,
{
}

/// Every failure of the engine's own category carries an assigned number.
pub proof fn lemma_code_is_assigned(e: CoreError)
    requires
        !(e is User),
    ensures
        is_engine_code(e.spec_code()),
        e.spec_code() != 0,
{
}

/// A failure survives the trip through its wire form: reading the wire form
/// of `e` gives `e` back. The one exception is the regular termination,
/// which a reader counts as success.
pub proof fn lemma_wire_round_trip(e: CoreError, r: Result<(), CoreError>)
    requires
        check_outcome((RawResult { category: e.spec_category(), code: e.spec_code() }), r),
    ensures
        e == CoreError::Common(CoreCommonError::Terminated) ==> r is Ok,
        e != CoreError::Common(CoreCommonError::Terminated) ==> r == Err::<(), CoreError>(e),
{
    if !(e is User) {
        lemma_code_is_assigned(e);
        if let Err(x) = r {
            lemma_code_identifies_error(e, x);
        }
    }
}

/// What can go wrong with a module instance and its exports.
#[derive(Clone, Debug, PartialEq, Eq)]
pub enum InstanceError {
    Create,
    CreateImportModule,
    NotFoundFunc(String),
    NotFoundTable(String),
    NotFoundMem(String),
    WriteMem(String),
    NotFoundGlobal(String),
    NotFoundMutGlobal(String),
    /// The name holds a zero byte, at the given position.
    FoundNulByte(usize),
}

} // verus!
