//! The primitive adapters: small integers, general numerics, booleans.

use v8_marshal::smi::{SmallInt, Smi};
use v8_marshal::{CheckedSmi, ConvError, FromV8, Number, Scope, ToV8, Value};

#[test]
fn smi_i32_round_trip() {
    let mut scope = Scope::new();
    let ev = Smi(42i32).to_v8(&mut scope).unwrap();
    assert_eq!(ev, Value::Integer(42));
    let back: Smi<i32> = Smi::from_v8(&mut scope, &ev).unwrap();
    assert_eq!(back, Smi(42i32));
}

#[test]
fn smi_u64_wraps_through_32_bit_intermediate() {
    let mut scope = Scope::new();
    let v: u64 = (1u64 << 32) + 5;
    let ev = Smi(v).to_v8(&mut scope).unwrap();
    assert_eq!(ev, Value::Integer(5));
    let as_u32: Smi<u32> = Smi::from_v8(&mut scope, &ev).unwrap();
    assert_eq!(as_u32, Smi(5u32));
    let as_u64: Smi<u64> = Smi::from_v8(&mut scope, &ev).unwrap();
    assert_eq!(as_u64, Smi(5u64));
}

#[test]
fn smi_negative_sign_extends_on_the_way_back() {
    let mut scope = Scope::new();
    let ev = Smi(-1i32).to_v8(&mut scope).unwrap();
    assert_eq!(ev, Value::Integer(-1));
    let as_u32: Smi<u32> = Smi::from_v8(&mut scope, &ev).unwrap();
    assert_eq!(as_u32, Smi(u32::MAX));
    let as_u64: Smi<u64> = Smi::from_v8(&mut scope, &ev).unwrap();
    assert_eq!(as_u64, Smi(u64::MAX));
}

#[test]
fn smi_narrow_target_truncates() {
    let mut scope = Scope::new();
    let ev = Value::Integer(300);
    let back: Smi<u8> = Smi::from_v8(&mut scope, &ev).unwrap();
    assert_eq!(back, Smi(44u8));
}

#[test]
fn smi_reads_integer_valued_heap_number() {
    let mut scope = Scope::new();
    let ev = Value::Number(7);
    let back: Smi<u32> = Smi::from_v8(&mut scope, &ev).unwrap();
    assert_eq!(back, Smi(7u32));
}

#[test]
fn smi_rejects_non_integer_value() {
    let mut scope = Scope::new();
    let ev = Value::Boolean(true);
    let err = <Smi<u32> as FromV8>::from_v8(&mut scope, &ev).unwrap_err();
    match err {
        ConvError::TypeMismatch { message } => assert_eq!(message, "Expected u32"),
        other => panic!("unexpected error: {:?}", other),
    }
}

#[test]
fn smi_type_names() {
    assert_eq!(<u32 as SmallInt>::name(), "u32");
    assert_eq!(<i64 as SmallInt>::name(), "i64");
    assert_eq!(<u32 as SmallInt>::expected_msg(), "Expected u32");
}

#[test]
fn number_u64_round_trips_exactly_in_safe_range() {
    let mut scope = Scope::new();
    let ev = Number(123456789u64).to_v8(&mut scope).unwrap();
    assert_eq!(ev, Value::Number(123456789));
    let back: Number<u64> = Number::from_v8(&mut scope, &ev).unwrap();
    assert_eq!(back, Number(123456789u64));
}

#[test]
fn number_lossy_boundary() {
    let mut scope = Scope::new();
    let exact: u64 = 1u64 << 53;
    let ev = Number(exact).to_v8(&mut scope).unwrap();
    assert_eq!(ev, Value::Number(1i128 << 53));
    let back: Number<u64> = Number::from_v8(&mut scope, &ev).unwrap();
    assert_eq!(back, Number(exact));

    let lossy: u64 = (1u64 << 53) + 1;
    let ev = Number(lossy).to_v8(&mut scope).unwrap();
    assert_eq!(ev, Value::Number(1i128 << 53));
    let back: Number<u64> = Number::from_v8(&mut scope, &ev).unwrap();
    assert_eq!(back, Number(exact));
    assert_ne!(back, Number(lossy));
}

#[test]
fn number_u64_max_rounds_past_the_type() {
    let mut scope = Scope::new();
    let ev = Number(u64::MAX).to_v8(&mut scope).unwrap();
    assert_eq!(ev, Value::Number(1i128 << 64));
    let err = <Number<u64> as FromV8>::from_v8(&mut scope, &ev).unwrap_err();
    match err {
        ConvError::TypeMismatch { message } => assert_eq!(message, "Expected u64"),
        other => panic!("unexpected error: {:?}", other),
    }
}

#[test]
fn number_negative_i64_round_trips() {
    let mut scope = Scope::new();
    let ev = Number(-987654i64).to_v8(&mut scope).unwrap();
    assert_eq!(ev, Value::Number(-987654));
    let back: Number<i64> = Number::from_v8(&mut scope, &ev).unwrap();
    assert_eq!(back, Number(-987654i64));
}

#[test]
fn number_reads_immediate_integer() {
    let mut scope = Scope::new();
    let ev = Value::Integer(7);
    let back: Number<u32> = Number::from_v8(&mut scope, &ev).unwrap();
    assert_eq!(back, Number(7u32));
}

#[test]
fn number_rejects_non_numeric_value() {
    let mut scope = Scope::new();
    let ev = Value::Boolean(false);
    let err = <Number<i64> as FromV8>::from_v8(&mut scope, &ev).unwrap_err();
    match err {
        ConvError::TypeMismatch { message } => assert_eq!(message, "Expected i64"),
        other => panic!("unexpected error: {:?}", other),
    }
}

#[test]
fn number_rejects_value_out_of_target_range() {
    let mut scope = Scope::new();
    let ev = Value::Number(-1);
    let err = <Number<u32> as FromV8>::from_v8(&mut scope, &ev).unwrap_err();
    match err {
        ConvError::TypeMismatch { message } => assert_eq!(message, "Expected u32"),
        other => panic!("unexpected error: {:?}", other),
    }
}

#[test]
fn bool_outbound() {
    let mut scope = Scope::new();
    assert_eq!(true.to_v8(&mut scope).unwrap(), Value::Boolean(true));
    assert_eq!(false.to_v8(&mut scope).unwrap(), Value::Boolean(false));
}

#[test]
fn bool_inbound_never_fails() {
    let mut scope = Scope::new();
    let cases: Vec<(Value, bool)> = vec![
        (Value::Boolean(true), true),
        (Value::Boolean(false), false),
        (Value::Integer(0), false),
        (Value::Integer(1), true),
        (Value::Integer(-3), true),
        (Value::Number(0), false),
        (Value::Number(1), true),
        (Value::Array(vec![]), true),
        (Value::Other { truthy: true }, true),
        (Value::Other { truthy: false }, false),
    ];
    for (ev, expected) in cases {
        let got: bool = bool::from_v8(&mut scope, &ev).unwrap();
        assert_eq!(got, expected);
    }
}

#[test]
fn checked_smi_in_range() {
    let mut scope = Scope::new();
    let ev = CheckedSmi(12345).to_v8(&mut scope).unwrap();
    assert_eq!(ev, Value::Integer(12345));
    let back: CheckedSmi = CheckedSmi::from_v8(&mut scope, &ev).unwrap();
    assert_eq!(back, CheckedSmi(12345));
}

#[test]
fn checked_smi_out_of_range_fails() {
    let mut scope = Scope::new();
    let err = CheckedSmi(1i64 << 40).to_v8(&mut scope).unwrap_err();
    match err {
        ConvError::OutOfRange { message } => {
            assert_eq!(message, "Smi value out of i32 range");
        },
        other => panic!("unexpected error: {:?}", other),
    }
    let err = CheckedSmi(i64::MIN).to_v8(&mut scope).unwrap_err();
    assert!(matches!(err, ConvError::OutOfRange { .. }));
}
