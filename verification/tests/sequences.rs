//! The ordered-sequence adapter: order, atomicity, rollback.

use v8_marshal::{CheckedSmi, ConvError, FromV8, Number, Scope, Smi, ToV8, Value};

#[test]
fn vec_outbound_keeps_length_and_order() {
    let mut scope = Scope::new();
    let ev = vec![Smi(1i32), Smi(2i32), Smi(3i32)].to_v8(&mut scope).unwrap();
    assert_eq!(
        ev,
        Value::Array(vec![Value::Integer(1), Value::Integer(2), Value::Integer(3)])
    );
}

#[test]
fn vec_i32_round_trip() {
    let mut scope = Scope::new();
    let original = vec![Smi(5i32), Smi(-7i32), Smi(0i32), Smi(i32::MAX), Smi(i32::MIN)];
    let ev = original.clone().to_v8(&mut scope).unwrap();
    let back: Vec<Smi<i32>> = Vec::from_v8(&mut scope, &ev).unwrap();
    assert_eq!(back, original);
}

#[test]
fn empty_array_reads_back_empty() {
    let mut scope = Scope::new();
    let ev = Value::Array(vec![]);
    let back: Vec<Smi<i32>> = Vec::from_v8(&mut scope, &ev).unwrap();
    assert_eq!(back, Vec::new());
}

#[test]
fn empty_vec_converts_to_empty_array() {
    let mut scope = Scope::new();
    let empty: Vec<Smi<i32>> = Vec::new();
    let ev = empty.to_v8(&mut scope).unwrap();
    assert_eq!(ev, Value::Array(vec![]));
}

#[test]
fn inbound_element_failure_aborts_whole_conversion() {
    let mut scope = Scope::new();
    let ev = Value::Array(vec![
        Value::Integer(1),
        Value::Integer(2),
        Value::Boolean(true),
        Value::Integer(4),
        Value::Integer(5),
    ]);
    let err = <Vec<Smi<u32>> as FromV8>::from_v8(&mut scope, &ev).unwrap_err();
    match &err {
        ConvError::ElementFailure { source } => match source.as_ref() {
            ConvError::TypeMismatch { message } => assert_eq!(message, "Expected u32"),
            other => panic!("unexpected inner error: {:?}", other),
        },
        other => panic!("unexpected error: {:?}", other),
    }
    assert_eq!(err.message(), "Expected u32");
    assert!(err.source().is_some());
}

#[test]
fn inbound_rejects_non_array_value() {
    let mut scope = Scope::new();
    let err = <Vec<Smi<u32>> as FromV8>::from_v8(&mut scope, &Value::Boolean(true)).unwrap_err();
    match err {
        ConvError::TypeMismatch { message } => {
            assert_eq!(message, "Failed to convert from V8");
        },
        other => panic!("unexpected error: {:?}", other),
    }
}

#[test]
fn outbound_element_failure_stops_at_first_bad_element() {
    let mut scope = Scope::new();
    let items = vec![CheckedSmi(1), CheckedSmi(1i64 << 40), CheckedSmi(2)];
    let err = items.to_v8(&mut scope).unwrap_err();
    match err {
        ConvError::OutOfRange { message } => {
            assert_eq!(message, "Smi value out of i32 range");
        },
        other => panic!("unexpected error: {:?}", other),
    }
}

#[test]
fn nested_vec_round_trip() {
    let mut scope = Scope::new();
    let original = vec![vec![Smi(1u8), Smi(2u8)], vec![], vec![Smi(255u8)]];
    let ev = original.clone().to_v8(&mut scope).unwrap();
    assert_eq!(
        ev,
        Value::Array(vec![
            Value::Array(vec![Value::Integer(1), Value::Integer(2)]),
            Value::Array(vec![]),
            Value::Array(vec![Value::Integer(255)]),
        ])
    );
    let back: Vec<Vec<Smi<u8>>> = Vec::from_v8(&mut scope, &ev).unwrap();
    assert_eq!(back, original);
}

#[test]
fn vec_of_numbers_round_trips() {
    let mut scope = Scope::new();
    let original = vec![Number(0u64), Number(1u64 << 53), Number(42u64)];
    let ev = original.clone().to_v8(&mut scope).unwrap();
    let back: Vec<Number<u64>> = Vec::from_v8(&mut scope, &ev).unwrap();
    assert_eq!(back, original);
}

#[test]
fn vec_of_bools_coerces_every_element() {
    let mut scope = Scope::new();
    let ev = Value::Array(vec![
        Value::Integer(0),
        Value::Boolean(true),
        Value::Other { truthy: false },
        Value::Number(3),
    ]);
    let back: Vec<bool> = Vec::from_v8(&mut scope, &ev).unwrap();
    assert_eq!(back, vec![false, true, false, true]);
}
