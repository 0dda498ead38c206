use native::{
    BoxedType, DecodeOutcome, FfiDecode, FfiEncode, FfiErrorKind, FfiStorageKind, FfiValue,
    GObjectType, HashTableType, IntegerSign, IntegerSize, IntegerType, Num, ObjectHandle,
    StringType, TypeDesc, Value,
};

#[test]
fn null_pointer_decodes_to_null_for_string() {
    let ty = StringType::new(false);
    let outcome = ty.decode(&FfiValue::Ptr(0)).unwrap();
    assert_eq!(outcome, DecodeOutcome::Done(Value::Null));
}

#[test]
fn null_pointer_decodes_to_null_for_object() {
    let ty = GObjectType::new(false);
    let outcome = ty.decode(&FfiValue::Ptr(0)).unwrap();
    assert_eq!(outcome, DecodeOutcome::Done(Value::Null));
}

#[test]
fn null_pointer_decodes_to_null_for_hash_table() {
    let ty = HashTableType::new(
        TypeDesc::Text(StringType::new(false)),
        TypeDesc::Integer(IntegerType::new(IntegerSize::_32, IntegerSign::Signed)),
        native::Ownership::Full,
    );
    let outcome = ty.decode(&FfiValue::Ptr(0)).unwrap();
    assert_eq!(outcome, DecodeOutcome::Done(Value::Null));
}

#[test]
fn null_pointer_decodes_to_null_for_boxed() {
    let ty = BoxedType::new(false, "GdkRGBA".to_string(), None);
    let outcome = ty.decode(&FfiValue::Ptr(0)).unwrap();
    assert_eq!(outcome, DecodeOutcome::Done(Value::Null));
}

#[test]
fn string_encode_copies_bytes_with_terminator() {
    let ty = StringType::new(false);
    let encoded = ty.encode(&Value::Text("hello".to_string()), false).unwrap();
    match encoded {
        FfiValue::Storage(storage) => match storage.kind {
            FfiStorageKind::CStr(bytes) => assert_eq!(bytes, b"hello\0".to_vec()),
            other => panic!("expected a C string buffer, got {:?}", other),
        },
        other => panic!("expected storage, got {:?}", other),
    }
}

#[test]
fn string_encode_rejects_interior_zero_byte() {
    let ty = StringType::new(false);
    let err = ty
        .encode(&Value::Text("he\0llo".to_string()), false)
        .unwrap_err();
    assert_eq!(err.kind(), FfiErrorKind::TypeMismatch);
}

#[test]
fn optional_empty_value_encodes_to_null_pointer() {
    let ty = StringType::new(false);
    assert_eq!(ty.encode(&Value::Null, true).unwrap(), FfiValue::Ptr(0));
    assert_eq!(ty.encode(&Value::Undefined, true).unwrap(), FfiValue::Ptr(0));

    let err = ty.encode(&Value::Null, false).unwrap_err();
    assert_eq!(err.kind(), FfiErrorKind::TypeMismatch);
}

#[test]
fn integer_encode_truncates_into_declared_width() {
    let ty = IntegerType::new(IntegerSize::_8, IntegerSign::Unsigned);
    let encoded = ty
        .encode(&Value::Number(Num { bits: 300.0f64.to_bits() }), false)
        .unwrap();
    assert_eq!(encoded, FfiValue::U8(44));

    let signed = IntegerType::new(IntegerSize::_8, IntegerSign::Signed);
    let encoded = signed
        .encode(&Value::Number(Num { bits: 200.0f64.to_bits() }), false)
        .unwrap();
    assert_eq!(encoded, FfiValue::I8(-56));
}

#[test]
fn integer_encode_rejects_wrong_shape() {
    let ty = IntegerType::new(IntegerSize::_32, IntegerSign::Unsigned);
    let err = ty.encode(&Value::Text("7".to_string()), false).unwrap_err();
    assert_eq!(err.kind(), FfiErrorKind::TypeMismatch);
}

#[test]
fn integer_decode_reproduces_native_result() {
    let ty = IntegerType::new(IntegerSize::_32, IntegerSign::Unsigned);
    let outcome = ty.decode(&FfiValue::U32(4294967295)).unwrap();
    match outcome {
        DecodeOutcome::Done(Value::Number(n)) => {
            assert_eq!(f64::from_bits(n.bits), 4294967295.0);
        },
        other => panic!("expected a number, got {:?}", other),
    }
}

#[test]
fn object_encode_fails_on_released_handle() {
    let ty = GObjectType::new(false);
    let err = ty
        .encode(&Value::Object(ObjectHandle::released()), false)
        .unwrap_err();
    assert_eq!(err.kind(), FfiErrorKind::Ownership);
}

#[test]
fn object_encode_requests_ref_on_full_transfer() {
    let full = GObjectType::new(false);
    let encoded = full
        .encode(&Value::Object(ObjectHandle::live(0x1000)), false)
        .unwrap();
    assert_eq!(encoded, FfiValue::Object { ptr: 0x1000, needs_ref: true });

    let borrowed = GObjectType::new(true);
    let encoded = borrowed
        .encode(&Value::Object(ObjectHandle::live(0x1000)), false)
        .unwrap();
    assert_eq!(encoded, FfiValue::Object { ptr: 0x1000, needs_ref: false });
}

#[test]
fn string_result_requires_valid_utf8() {
    let bad = native::decode_c_string(vec![0xff, 0xfe]);
    let err = bad.unwrap_err();
    assert_eq!(err.kind(), FfiErrorKind::Decode);

    let good = native::decode_c_string(b"hi".to_vec()).unwrap();
    assert_eq!(good, "hi");
}

#[test]
fn boxed_type_derives_type_registration_symbol() {
    let ty = BoxedType::new(false, "GdkRGBA".to_string(), Some("libgtk-4.so.1".to_string()));
    assert_eq!(ty.get_type_symbol(), b"gdk_r_g_b_a_get_type".to_vec());

    let plain = BoxedType::new(false, "color".to_string(), None);
    assert_eq!(plain.get_type_symbol(), b"color_get_type".to_vec());
}
