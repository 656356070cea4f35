use chat_agent::defs::{number_bits_of, number_value, Kind, Struct, Value};

#[test]
fn number_bits_match_binary64() {
    for n in [0u32, 1, 2, 3, 7, 1000, 65534, 1 << 31, u32::MAX] {
        assert_eq!(number_bits_of(n), (n as f64).to_bits(), "n = {}", n);
    }
}

#[test]
fn number_value_holds_bits() {
    match number_value(1000).kind {
        Some(Kind::NumberValue(b)) => assert_eq!(f64::from_bits(b), 1000.0),
        _ => panic!("not a number"),
    }
}

#[test]
fn struct_lookup_takes_first_match() {
    let s = Struct {
        fields: vec![
            ("a".to_string(), Value { kind: Some(Kind::BoolValue(true)) }),
            ("b".to_string(), Value { kind: None }),
            ("a".to_string(), Value { kind: Some(Kind::BoolValue(false)) }),
        ],
    };
    assert!(matches!(s.get(&"a".to_string()).and_then(|v| v.kind.as_ref()), Some(Kind::BoolValue(true))));
    assert!(matches!(s.get(&"b".to_string()), Some(Value { kind: None })));
    assert!(s.get(&"c".to_string()).is_none());
}
