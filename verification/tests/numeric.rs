use native::{FloatKind, IntegerKind, Num};

#[test]
fn integer_dispatch_ffi_type_u8() {
    let kind = IntegerKind::U8;
    let ffi_type = kind.ffi_type();
    assert_eq!(
        ffi_type.as_raw_ptr(),
        libffi::middle::Type::u8().as_raw_ptr()
    );
}

#[test]
fn integer_dispatch_ffi_type_i64() {
    let kind = IntegerKind::I64;
    let ffi_type = kind.ffi_type();
    assert_eq!(
        ffi_type.as_raw_ptr(),
        libffi::middle::Type::i64().as_raw_ptr()
    );
}

#[test]
fn integer_dispatch_read_slice() {
    let mut data: Vec<u8> = Vec::new();
    for v in [100u32, 200, 300] {
        data.extend_from_slice(&v.to_le_bytes());
    }

    let result = IntegerKind::U32.read_slice(&data, 3);
    let as_f64: Vec<f64> = result.iter().map(|n| f64::from_bits(n.bits)).collect();
    assert_eq!(as_f64, vec![100.0, 200.0, 300.0]);
}

#[test]
fn integer_dispatch_read_slice_signed() {
    let mut data: Vec<u8> = Vec::new();
    for v in [-100i16, 0, 100] {
        data.extend_from_slice(&v.to_le_bytes());
    }

    let result = IntegerKind::I16.read_slice(&data, 3);
    let as_f64: Vec<f64> = result.iter().map(|n| f64::from_bits(n.bits)).collect();
    assert_eq!(as_f64, vec![-100.0, 0.0, 100.0]);
}

#[test]
fn integer_kind_from_size_and_sign() {
    assert!(matches!(
        IntegerKind::from_size_and_sign(8, true),
        Some(IntegerKind::U8)
    ));
    assert!(matches!(
        IntegerKind::from_size_and_sign(8, false),
        Some(IntegerKind::I8)
    ));
    assert!(matches!(
        IntegerKind::from_size_and_sign(16, true),
        Some(IntegerKind::U16)
    ));
    assert!(matches!(
        IntegerKind::from_size_and_sign(16, false),
        Some(IntegerKind::I16)
    ));
    assert!(matches!(
        IntegerKind::from_size_and_sign(32, true),
        Some(IntegerKind::U32)
    ));
    assert!(matches!(
        IntegerKind::from_size_and_sign(32, false),
        Some(IntegerKind::I32)
    ));
    assert!(matches!(
        IntegerKind::from_size_and_sign(64, true),
        Some(IntegerKind::U64)
    ));
    assert!(matches!(
        IntegerKind::from_size_and_sign(64, false),
        Some(IntegerKind::I64)
    ));
    assert!(IntegerKind::from_size_and_sign(128, true).is_none());
    assert!(IntegerKind::from_size_and_sign(1, false).is_none());
}

#[test]
fn integer_kind_is_unsigned() {
    assert!(IntegerKind::U8.is_unsigned());
    assert!(IntegerKind::U16.is_unsigned());
    assert!(IntegerKind::U32.is_unsigned());
    assert!(IntegerKind::U64.is_unsigned());
    assert!(!IntegerKind::I8.is_unsigned());
    assert!(!IntegerKind::I16.is_unsigned());
    assert!(!IntegerKind::I32.is_unsigned());
    assert!(!IntegerKind::I64.is_unsigned());
}

#[test]
fn integer_kind_byte_size() {
    assert_eq!(IntegerKind::U8.byte_size(), 1);
    assert_eq!(IntegerKind::I8.byte_size(), 1);
    assert_eq!(IntegerKind::U16.byte_size(), 2);
    assert_eq!(IntegerKind::I16.byte_size(), 2);
    assert_eq!(IntegerKind::U32.byte_size(), 4);
    assert_eq!(IntegerKind::I32.byte_size(), 4);
    assert_eq!(IntegerKind::U64.byte_size(), 8);
    assert_eq!(IntegerKind::I64.byte_size(), 8);
}

#[test]
fn float_dispatch_ffi_type_f32() {
    let kind = FloatKind::F32;
    assert_eq!(kind.byte_size(), 4);
}

#[test]
fn float_dispatch_ffi_type_f64() {
    let kind = FloatKind::F64;
    assert_eq!(kind.byte_size(), 8);
}

#[test]
fn float_dispatch_read_ptr_f32() {
    let value: f32 = 3.125;
    let bytes = value.to_le_bytes().to_vec();

    let bits = FloatKind::F32.read_bytes(&bytes);
    let result = f32::from_bits(bits as u32) as f64;
    assert!((result - 3.125).abs() < 0.001);
}

#[test]
fn float_dispatch_read_ptr_f64() {
    let value: f64 = 2.718281828;
    let bytes = value.to_le_bytes().to_vec();

    let bits = FloatKind::F64.read_bytes(&bytes);
    let result = f64::from_bits(bits);
    assert!((result - 2.718281828).abs() < 0.0000001);
}

#[test]
fn float_dispatch_write_ptr_f32() {
    let written = FloatKind::F32.write_bytes(1.5f32.to_bits() as u64);
    let value = f32::from_bits(u32::from_le_bytes([
        written[0], written[1], written[2], written[3],
    ]));
    assert!((value - 1.5).abs() < 0.001);
}

#[test]
fn float_dispatch_write_ptr_f64() {
    let written = FloatKind::F64.write_bytes(3.14159265358979f64.to_bits());
    let mut arr = [0u8; 8];
    arr.copy_from_slice(&written);
    let value = f64::from_bits(u64::from_le_bytes(arr));
    assert!((value - 3.14159265358979).abs() < 0.0000001);
}

#[test]
fn float_dispatch_to_ffi_value_f32() {
    let result = FloatKind::F32.to_ffi_value(Num { bits: 2.5f64.to_bits() });
    if let native::FfiValue::F32(v) = result {
        assert!((f32::from_bits(v) - 2.5).abs() < 0.001);
    } else {
        panic!("expected the 32-bit float representation");
    }
}

#[test]
fn float_dispatch_to_ffi_value_f64() {
    let result = FloatKind::F64.to_ffi_value(Num { bits: 2.718281828f64.to_bits() });
    if let native::FfiValue::F64(v) = result {
        assert!((f64::from_bits(v) - 2.718281828).abs() < 0.0000001);
    } else {
        panic!("expected the 64-bit float representation");
    }
}

#[test]
fn float_kind_from_size() {
    assert!(matches!(FloatKind::from_size(32), Some(FloatKind::F32)));
    assert!(matches!(FloatKind::from_size(64), Some(FloatKind::F64)));
    assert!(FloatKind::from_size(16).is_none());
    assert!(FloatKind::from_size(128).is_none());
}

#[test]
fn integer_write_then_read_round_trips_each_width() {
    let cases: Vec<(IntegerKind, i64)> = vec![
        (IntegerKind::U8, 0),
        (IntegerKind::U8, 255),
        (IntegerKind::I8, -128),
        (IntegerKind::I8, 127),
        (IntegerKind::U16, 65535),
        (IntegerKind::I16, -32768),
        (IntegerKind::U32, 0),
        (IntegerKind::U32, 4294967295),
        (IntegerKind::I32, -2147483648),
        (IntegerKind::I64, -9223372036854775808),
        (IntegerKind::I64, 9223372036854775807),
    ];
    for (kind, v) in cases {
        let bytes = kind.write_i64(v);
        assert_eq!(bytes.len(), kind.byte_size());
        let back = kind.read_i64(&bytes);
        assert_eq!(back, v);
    }
}

#[test]
fn integer_u64_full_range_round_trips() {
    for v in [0u64, 1, 0x8000_0000_0000_0000, u64::MAX] {
        let bytes = IntegerKind::U64.write_i64(v as i64);
        let back = IntegerKind::U64.read_u64(&bytes);
        assert_eq!(back, v);
    }
}

#[test]
fn float_f64_bits_survive_exactly() {
    for v in [0.0f64, -0.0, 1.5, -2.718281828, f64::MAX, f64::MIN_POSITIVE] {
        let bytes = FloatKind::F64.write_bytes(v.to_bits());
        let back = FloatKind::F64.read_bytes(&bytes);
        assert_eq!(back, v.to_bits());
    }
}

#[test]
fn number_truncates_toward_zero() {
    assert_eq!(Num { bits: 3.7f64.to_bits() }.trunc_to_i64(), 3);
    assert_eq!(Num { bits: (-3.7f64).to_bits() }.trunc_to_i64(), -3);
    assert_eq!(Num { bits: f64::NAN.to_bits() }.trunc_to_i64(), 0);
    assert_eq!(Num { bits: f64::INFINITY.to_bits() }.trunc_to_i64(), i64::MAX);
    assert_eq!(Num { bits: f64::NEG_INFINITY.to_bits() }.trunc_to_i64(), i64::MIN);
    assert_eq!(Num { bits: (-0.5f64).to_bits() }.trunc_to_i64(), 0);
}

#[test]
fn number_from_integers_is_exact() {
    for v in [0u64, 1, 4294967295, 9007199254740991] {
        let n = Num::from_u64(v);
        assert_eq!(f64::from_bits(n.bits), v as f64);
    }
    for v in [-1i64, -4294967296, -9007199254740991] {
        let n = Num::from_i64(v);
        assert_eq!(f64::from_bits(n.bits), v as f64);
    }
}

#[test]
fn narrow_float_widens_and_narrows_back() {
    for v in [0.0f32, -0.0, 2.5, 3.125, -1.0e30, f32::MAX, f32::INFINITY] {
        let wide = Num::promote_from_f32_bits(v.to_bits());
        assert_eq!(f64::from_bits(wide.bits), v as f64);
        assert_eq!(wide.demote_to_f32_bits(), v.to_bits());
    }
}
