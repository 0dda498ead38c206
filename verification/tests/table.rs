use native::{
    EntryRepr, EqualFunc, FfiEncode, FfiErrorKind, FfiStorageKind, FfiValue, FreeFunc, HashFunc,
    HashTableType, IntegerSign, IntegerSize, IntegerType, Num, Ownership, StringType, TypeDesc,
    Value,
};

fn pair(key: Value, value: Value) -> Value {
    Value::Array(vec![key, value])
}

fn number(v: f64) -> Value {
    Value::Number(Num { bits: v.to_bits() })
}

#[test]
fn table_of_string_keys_and_integer_values_has_both_entries() {
    let ty = HashTableType::new(
        TypeDesc::Text(StringType::new(false)),
        TypeDesc::Integer(IntegerType::new(IntegerSize::_32, IntegerSign::Signed)),
        Ownership::Borrowed,
    );
    let tuples = Value::Array(vec![
        pair(Value::Text("a".to_string()), number(1.0)),
        pair(Value::Text("b".to_string()), number(2.0)),
    ]);

    let encoded = ty.encode(&tuples, false).unwrap();
    let plan = match encoded {
        FfiValue::Storage(storage) => match storage.kind {
            FfiStorageKind::Table(plan) => plan,
            other => panic!("expected a table plan, got {:?}", other),
        },
        other => panic!("expected storage, got {:?}", other),
    };

    assert_eq!(plan.key_hash, HashFunc::Str);
    assert_eq!(plan.key_equal, EqualFunc::Str);
    assert_eq!(plan.key_free, Some(FreeFunc::Free));
    assert_eq!(plan.value_free, None);

    assert_eq!(plan.entries.len(), 2);
    assert_eq!(plan.entries[0].0, EntryRepr::StrBytes(b"a\0".to_vec()));
    assert_eq!(plan.entries[0].1, EntryRepr::Word(1));
    assert_eq!(plan.entries[1].0, EntryRepr::StrBytes(b"b\0".to_vec()));
    assert_eq!(plan.entries[1].1, EntryRepr::Word(2));
}

#[test]
fn table_encode_rejects_malformed_pair() {
    let ty = HashTableType::new(
        TypeDesc::Text(StringType::new(false)),
        TypeDesc::Integer(IntegerType::new(IntegerSize::_32, IntegerSign::Signed)),
        Ownership::Borrowed,
    );
    let tuples = Value::Array(vec![Value::Array(vec![Value::Text("a".to_string())])]);

    let err = ty.encode(&tuples, false).unwrap_err();
    assert_eq!(err.kind(), FfiErrorKind::TypeMismatch);
}

#[test]
fn table_encode_rejects_unsupported_cell_type() {
    let inner = HashTableType::new(
        TypeDesc::Boolean,
        TypeDesc::Boolean,
        Ownership::Borrowed,
    );
    let ty = HashTableType::new(
        TypeDesc::HashTable(inner),
        TypeDesc::Boolean,
        Ownership::Borrowed,
    );
    let err = ty.encode(&Value::Array(vec![]), false).unwrap_err();
    assert_eq!(err.kind(), FfiErrorKind::Descriptor);
}

#[test]
fn table_cells_use_their_categories() {
    let ty = HashTableType::new(
        TypeDesc::Integer(IntegerType::new(IntegerSize::_64, IntegerSign::Signed)),
        TypeDesc::Float(native::FloatType::new(native::FloatSize::_64)),
        Ownership::Borrowed,
    );
    let tuples = Value::Array(vec![pair(number(7.0), number(2.5))]);

    let encoded = ty.encode(&tuples, false).unwrap();
    let plan = match encoded {
        FfiValue::Storage(storage) => match storage.kind {
            FfiStorageKind::Table(plan) => plan,
            other => panic!("expected a table plan, got {:?}", other),
        },
        other => panic!("expected storage, got {:?}", other),
    };

    assert_eq!(plan.key_hash, HashFunc::Direct);
    assert_eq!(plan.key_free, None);
    assert_eq!(plan.value_free, Some(FreeFunc::Free));
    assert_eq!(plan.entries[0].0, EntryRepr::Word(7));
    assert_eq!(plan.entries[0].1, EntryRepr::FloatBits(2.5f64.to_bits()));
}

#[test]
fn read_back_table_cells_decode_into_pairs() {
    let key_type = TypeDesc::Text(StringType::new(false));
    let value_type = TypeDesc::Integer(IntegerType::new(IntegerSize::_32, IntegerSign::Signed));
    let cells = vec![
        (
            native::RawCell::CStrBytes(b"a".to_vec()),
            native::RawCell::Word(1),
        ),
        (
            native::RawCell::CStrBytes(b"b".to_vec()),
            native::RawCell::Word(2),
        ),
    ];

    let decoded = native::decode_entries(&key_type, &value_type, &cells).unwrap();
    match decoded {
        Value::Array(pairs) => {
            assert_eq!(pairs.len(), 2);
            match &pairs[0] {
                Value::Array(kv) => {
                    assert_eq!(kv[0], Value::Text("a".to_string()));
                    match &kv[1] {
                        Value::Number(n) => assert_eq!(f64::from_bits(n.bits), 1.0),
                        other => panic!("expected a number, got {:?}", other),
                    }
                },
                other => panic!("expected a pair, got {:?}", other),
            }
        },
        other => panic!("expected an array of pairs, got {:?}", other),
    }
}
