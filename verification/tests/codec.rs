use wasmedge_plugin_sdk::types::{
    find_nul, RawValue, ValType, WasmEdgeString, WasmVal, VAL_TYPE_EXTERN_REF, VAL_TYPE_F32,
    VAL_TYPE_F64, VAL_TYPE_FUNC_REF, VAL_TYPE_I32, VAL_TYPE_I64, VAL_TYPE_V128,
};

fn round_trip(v: WasmVal) -> WasmVal {
    WasmVal::from(RawValue::from(v))
}

#[test]
fn v128_pattern_survives_encode_and_decode() {
    let pattern: i128 = 0x0000_0000_0000_0001_0000_0000_0000_0002;
    let raw = RawValue::from(WasmVal::V128(pattern));
    assert_eq!(raw.value, 0x0000_0000_0000_0001_0000_0000_0000_0002u128);
    assert_eq!(raw.ty, VAL_TYPE_V128);
    match WasmVal::from(raw) {
        WasmVal::V128(n) => assert_eq!(n, pattern),
        other => panic!("decoded to {:?}", other),
    }
}

#[test]
fn every_numeric_variant_round_trips() {
    let cases = vec![
        WasmVal::I32(0),
        WasmVal::I32(1),
        WasmVal::I32(-1),
        WasmVal::I32(i32::MIN),
        WasmVal::I32(i32::MAX),
        WasmVal::I64(0),
        WasmVal::I64(-1),
        WasmVal::I64(i64::MIN),
        WasmVal::I64(i64::MAX),
        WasmVal::F32(1.5f32.to_bits()),
        WasmVal::F32((-0.0f32).to_bits()),
        WasmVal::F64(2.25f64.to_bits()),
        WasmVal::F64(f64::INFINITY.to_bits()),
        WasmVal::V128(0),
        WasmVal::V128(-1),
        WasmVal::V128(i128::MIN),
        WasmVal::V128(i128::MAX),
    ];
    for v in cases {
        assert_eq!(round_trip(v), v);
    }
}

#[test]
fn nan_payload_bits_are_kept() {
    let quiet_with_payload: u32 = 0x7FC0_0001;
    let signalling: u64 = 0x7FF0_0000_0000_0001;
    assert!(f32::from_bits(quiet_with_payload).is_nan());
    assert!(f64::from_bits(signalling).is_nan());
    match round_trip(WasmVal::F32(quiet_with_payload)) {
        WasmVal::F32(bits) => assert_eq!(bits, quiet_with_payload),
        other => panic!("decoded to {:?}", other),
    }
    match round_trip(WasmVal::F64(signalling)) {
        WasmVal::F64(bits) => assert_eq!(bits, signalling),
        other => panic!("decoded to {:?}", other),
    }
}

#[test]
fn encode_puts_the_payload_in_the_low_bits() {
    assert_eq!(
        RawValue::from(WasmVal::I32(-1)),
        RawValue { value: 0xFFFF_FFFF, ty: VAL_TYPE_I32 }
    );
    assert_eq!(
        RawValue::from(WasmVal::I32(-2)),
        RawValue { value: 0xFFFF_FFFE, ty: 0x7F }
    );
    assert_eq!(
        RawValue::from(WasmVal::I64(-1)),
        RawValue { value: 0xFFFF_FFFF_FFFF_FFFF, ty: VAL_TYPE_I64 }
    );
    assert_eq!(
        RawValue::from(WasmVal::F32(1.0f32.to_bits())),
        RawValue { value: 0x3F80_0000, ty: VAL_TYPE_F32 }
    );
    assert_eq!(
        RawValue::from(WasmVal::F64(1.0f64.to_bits())),
        RawValue { value: 0x3FF0_0000_0000_0000, ty: VAL_TYPE_F64 }
    );
    assert_eq!(
        RawValue::from(WasmVal::V128(-1)),
        RawValue { value: u128::MAX, ty: 0x7B }
    );
}

#[test]
fn decode_reads_only_the_low_bits() {
    let raw = RawValue { value: 0xAAAA_BBBB_0000_0005, ty: VAL_TYPE_I32 };
    assert_eq!(WasmVal::from(raw), WasmVal::I32(5));
    let raw = RawValue { value: (7u128 << 64) | 9, ty: VAL_TYPE_I64 };
    assert_eq!(WasmVal::from(raw), WasmVal::I64(9));
    let raw = RawValue { value: 0xFFFF_FFFF, ty: VAL_TYPE_I32 };
    assert_eq!(WasmVal::from(raw), WasmVal::I32(-1));
}

#[test]
fn unknown_type_is_kept_whole() {
    let raw = RawValue { value: 0x1234, ty: VAL_TYPE_FUNC_REF };
    match WasmVal::from(raw) {
        WasmVal::UnknownType(kept) => assert_eq!(kept, raw),
        other => panic!("decoded to {:?}", other),
    }
    let raw = RawValue { value: 77, ty: 0x01 };
    let back = RawValue::from(WasmVal::from(raw));
    assert_eq!(back, raw);
    assert!(!WasmVal::from(raw).is_numeric());
    assert!(WasmVal::I32(3).is_numeric());
}

#[test]
fn equality_within_a_variant_is_bit_equality() {
    assert_eq!(WasmVal::I32(4), WasmVal::I32(4));
    assert_ne!(WasmVal::I32(4), WasmVal::I32(5));
    assert_eq!(WasmVal::I64(-9), WasmVal::I64(-9));
    assert_ne!(WasmVal::I64(-9), WasmVal::I64(9));
    assert_eq!(WasmVal::V128(1 << 100), WasmVal::V128(1 << 100));
    assert_ne!(WasmVal::V128(1 << 100), WasmVal::V128(1 << 99));
    let nan = f32::NAN.to_bits();
    assert_eq!(WasmVal::F32(nan), WasmVal::F32(nan));
    assert_ne!(
        WasmVal::F32(0.0f32.to_bits()),
        WasmVal::F32((-0.0f32).to_bits())
    );
    assert_eq!(
        WasmVal::F64(3.5f64.to_bits()),
        WasmVal::F64(3.5f64.to_bits())
    );
}

#[test]
fn equality_across_variants_is_false() {
    assert_ne!(WasmVal::I32(1), WasmVal::I64(1));
    assert_ne!(WasmVal::I64(1), WasmVal::V128(1));
    assert_ne!(WasmVal::F32(1), WasmVal::I32(1));
    assert_ne!(WasmVal::F64(1), WasmVal::I64(1));
    assert_ne!(WasmVal::F32(0), WasmVal::F64(0));
}

#[test]
fn uninterpreted_values_equal_nothing() {
    let raw = RawValue { value: 5, ty: VAL_TYPE_EXTERN_REF };
    let a = WasmVal::UnknownType(raw);
    let b = WasmVal::UnknownType(raw);
    assert!(a != b);
    assert!(a != a);
    assert!(a != WasmVal::I32(5));
    assert!(WasmVal::I32(5) != a);
}

#[test]
fn val_type_codes() {
    assert_eq!(u32::from(ValType::I32), 0x7F);
    assert_eq!(u32::from(ValType::I64), 0x7E);
    assert_eq!(u32::from(ValType::F32), 0x7D);
    assert_eq!(u32::from(ValType::F64), 0x7C);
    assert_eq!(u32::from(ValType::V128), 0x7B);
    assert_eq!(u32::from(ValType::FuncRef), 0x70);
    assert_eq!(u32::from(ValType::ExternRef), 0x6F);
    assert_eq!(u32::from(ValType::UnsupportedRef), 0x6F);
    for t in [
        ValType::I32,
        ValType::I64,
        ValType::F32,
        ValType::F64,
        ValType::V128,
        ValType::FuncRef,
        ValType::ExternRef,
    ] {
        assert_eq!(ValType::from(u32::from(t)), t);
    }
    assert_eq!(ValType::from(0u32), ValType::UnsupportedRef);
    assert_eq!(ValType::from(0x6Eu32), ValType::UnsupportedRef);
    assert_eq!(ValType::from(u32::MAX), ValType::UnsupportedRef);
}

#[test]
fn val_type_of_a_value() {
    assert_eq!(WasmVal::I32(0).val_type(), ValType::I32);
    assert_eq!(WasmVal::I64(0).val_type(), ValType::I64);
    assert_eq!(WasmVal::F32(0).val_type(), ValType::F32);
    assert_eq!(WasmVal::F64(0).val_type(), ValType::F64);
    assert_eq!(WasmVal::V128(0).val_type(), ValType::V128);
    let raw = RawValue { value: 0, ty: VAL_TYPE_FUNC_REF };
    assert_eq!(WasmVal::UnknownType(raw).val_type(), ValType::FuncRef);
    let raw = RawValue { value: 0, ty: 3 };
    assert_eq!(WasmVal::UnknownType(raw).val_type(), ValType::UnsupportedRef);
}

#[test]
fn find_nul_gives_the_first_zero_byte() {
    assert_eq!(find_nul(b"abc"), None);
    assert_eq!(find_nul(b""), None);
    assert_eq!(find_nul(b"\0"), Some(0));
    assert_eq!(find_nul(b"ab\0cd\0"), Some(2));
}

#[test]
fn names_with_a_zero_byte_are_refused() {
    let name = WasmEdgeString::new("add_x").unwrap();
    assert_eq!(name.as_str(), "add_x");
    assert_eq!(name.into_string(), String::from("add_x"));
    assert_eq!(WasmEdgeString::new("ad\0d").err(), Some(2));
    assert!(WasmEdgeString::new("").is_ok());
}
