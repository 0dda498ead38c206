use native::{
    decode_return, plan_call, CallArg, CallResult, FfiArg, FfiErrorKind, FfiTypeTag, RawReturn,
    ReturnKind,
};

#[test]
fn call_with_string_arg_and_integer_return_yields_length() {
    // The "strlen" shape: one string argument, an unsigned 32-bit result.
    let args = vec![CallArg::Text("hello".to_string())];
    let plan = plan_call("strlen", &args, ReturnKind::U32).unwrap();

    assert_eq!(plan.symbol, b"strlen".to_vec());
    assert_eq!(plan.args.len(), 1);
    assert_eq!(plan.args[0], FfiArg::CStr(b"hello\0".to_vec()));
    assert_eq!(plan.arg_tags, vec![FfiTypeTag::Pointer]);
    assert_eq!(plan.return_tag, FfiTypeTag::U32);

    // The native call returns 5; decoding gives the host the number 5.
    let result = decode_return(ReturnKind::U32, RawReturn::Word(5)).unwrap();
    match result {
        CallResult::Number(n) => assert_eq!(f64::from_bits(n.bits), 5.0),
        other => panic!("expected a number, got {:?}", other),
    }
}

#[test]
fn plan_preserves_argument_order_and_tags() {
    let args = vec![
        CallArg::U8(1),
        CallArg::I64(-2),
        CallArg::F64(2.5f64.to_bits()),
        CallArg::Boolean(true),
        CallArg::Pointer(0x1000),
        CallArg::U32Array(vec![1, 2, 3]),
    ];
    let plan = plan_call("gtk_widget_show", &args, ReturnKind::Void).unwrap();

    assert_eq!(
        plan.arg_tags,
        vec![
            FfiTypeTag::U8,
            FfiTypeTag::I64,
            FfiTypeTag::F64,
            FfiTypeTag::U8,
            FfiTypeTag::Pointer,
            FfiTypeTag::Pointer,
        ]
    );
    assert_eq!(plan.args[3], FfiArg::Boolean(1));
    assert_eq!(plan.args[5], FfiArg::U32Array(vec![1, 2, 3]));
    assert_eq!(plan.return_tag, FfiTypeTag::Void);
}

#[test]
fn plan_rejects_string_with_interior_zero_byte() {
    let args = vec![CallArg::Text("a\0b".to_string())];
    let err = plan_call("strlen", &args, ReturnKind::U32).unwrap_err();
    assert_eq!(err.kind(), FfiErrorKind::TypeMismatch);
}

#[test]
fn return_kind_parses_protocol_names() {
    assert_eq!(ReturnKind::from_name("void"), Some(ReturnKind::Void));
    assert_eq!(ReturnKind::from_name("u32"), Some(ReturnKind::U32));
    assert_eq!(ReturnKind::from_name("f64"), Some(ReturnKind::F64));
    assert_eq!(ReturnKind::from_name("string"), Some(ReturnKind::Text));
    assert_eq!(ReturnKind::from_name("boolean"), Some(ReturnKind::Boolean));
    assert_eq!(ReturnKind::from_name("gpointer"), Some(ReturnKind::GPointer));
    assert_eq!(ReturnKind::from_name("gobject"), Some(ReturnKind::GObject));
    assert_eq!(
        ReturnKind::from_name("gobject-borrowed"),
        Some(ReturnKind::GObjectBorrowed)
    );
    assert_eq!(ReturnKind::from_name("something-else"), None);
}

#[test]
fn signed_returns_are_sign_extended() {
    let result = decode_return(ReturnKind::I8, RawReturn::Word(0xff)).unwrap();
    match result {
        CallResult::Number(n) => assert_eq!(f64::from_bits(n.bits), -1.0),
        other => panic!("expected a number, got {:?}", other),
    }

    let result = decode_return(ReturnKind::I32, RawReturn::Word(0xffff_fffe)).unwrap();
    match result {
        CallResult::Number(n) => assert_eq!(f64::from_bits(n.bits), -2.0),
        other => panic!("expected a number, got {:?}", other),
    }
}

#[test]
fn string_return_copies_bytes_and_null_decodes_to_null() {
    let result = decode_return(
        ReturnKind::Text,
        RawReturn::CStr(Some(b"widget".to_vec())),
    )
    .unwrap();
    assert_eq!(result, CallResult::Text("widget".to_string()));

    let result = decode_return(ReturnKind::Text, RawReturn::CStr(None)).unwrap();
    assert_eq!(result, CallResult::Null);
}

#[test]
fn invalid_utf8_string_return_is_a_decode_error() {
    let err = decode_return(
        ReturnKind::Text,
        RawReturn::CStr(Some(vec![0xc0, 0x00])),
    )
    .unwrap_err();
    assert_eq!(err.kind(), FfiErrorKind::Decode);
}

#[test]
fn pointer_returns_stay_opaque_handles() {
    let result = decode_return(ReturnKind::GObject, RawReturn::Ptr(0x2000)).unwrap();
    assert_eq!(result, CallResult::GPointer(0x2000));

    let result = decode_return(ReturnKind::Void, RawReturn::Void).unwrap();
    assert_eq!(result, CallResult::Void);
}

#[test]
fn wrong_raw_shape_is_a_decode_error() {
    let err = decode_return(ReturnKind::U32, RawReturn::Ptr(5)).unwrap_err();
    assert_eq!(err.kind(), FfiErrorKind::Decode);
}

#[test]
fn boolean_return_is_nonzero_test() {
    assert_eq!(
        decode_return(ReturnKind::Boolean, RawReturn::Word(0)).unwrap(),
        CallResult::Boolean(false)
    );
    assert_eq!(
        decode_return(ReturnKind::Boolean, RawReturn::Word(7)).unwrap(),
        CallResult::Boolean(true)
    );
}
