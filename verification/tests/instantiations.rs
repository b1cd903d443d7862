//! Every adapter instantiation, exercised through the engine boundary.

use v8_marshal::{FromV8, Number, Scope, Smi, ToV8, Value};

#[test]
fn smi_round_trips_every_integral_type() {
    let mut scope = Scope::new();

    let ev = Smi(200u8).to_v8(&mut scope).unwrap();
    assert_eq!(Smi::<u8>::from_v8(&mut scope, &ev).unwrap(), Smi(200u8));

    let ev = Smi(60000u16).to_v8(&mut scope).unwrap();
    assert_eq!(Smi::<u16>::from_v8(&mut scope, &ev).unwrap(), Smi(60000u16));

    let ev = Smi(3_000_000_000u32).to_v8(&mut scope).unwrap();
    assert_eq!(ev, Value::Integer(-1_294_967_296));
    assert_eq!(
        Smi::<u32>::from_v8(&mut scope, &ev).unwrap(),
        Smi(3_000_000_000u32)
    );

    let ev = Smi(77u64).to_v8(&mut scope).unwrap();
    assert_eq!(Smi::<u64>::from_v8(&mut scope, &ev).unwrap(), Smi(77u64));

    let ev = Smi(88usize).to_v8(&mut scope).unwrap();
    assert_eq!(Smi::<usize>::from_v8(&mut scope, &ev).unwrap(), Smi(88usize));

    let ev = Smi(-100i8).to_v8(&mut scope).unwrap();
    assert_eq!(Smi::<i8>::from_v8(&mut scope, &ev).unwrap(), Smi(-100i8));

    let ev = Smi(-30000i16).to_v8(&mut scope).unwrap();
    assert_eq!(Smi::<i16>::from_v8(&mut scope, &ev).unwrap(), Smi(-30000i16));

    let ev = Smi(i32::MIN).to_v8(&mut scope).unwrap();
    assert_eq!(Smi::<i32>::from_v8(&mut scope, &ev).unwrap(), Smi(i32::MIN));

    let ev = Smi(-42i64).to_v8(&mut scope).unwrap();
    assert_eq!(Smi::<i64>::from_v8(&mut scope, &ev).unwrap(), Smi(-42i64));

    let ev = Smi(-7isize).to_v8(&mut scope).unwrap();
    assert_eq!(Smi::<isize>::from_v8(&mut scope, &ev).unwrap(), Smi(-7isize));
}

#[test]
fn number_round_trips_every_numeric_type() {
    let mut scope = Scope::new();

    let ev = Number(4_000_000_000u32).to_v8(&mut scope).unwrap();
    assert_eq!(ev, Value::Number(4_000_000_000));
    assert_eq!(
        Number::<u32>::from_v8(&mut scope, &ev).unwrap(),
        Number(4_000_000_000u32)
    );

    let ev = Number(-2_000_000_000i32).to_v8(&mut scope).unwrap();
    assert_eq!(
        Number::<i32>::from_v8(&mut scope, &ev).unwrap(),
        Number(-2_000_000_000i32)
    );

    let ev = Number(1u64 << 50).to_v8(&mut scope).unwrap();
    assert_eq!(
        Number::<u64>::from_v8(&mut scope, &ev).unwrap(),
        Number(1u64 << 50)
    );

    let ev = Number(-(1i64 << 50)).to_v8(&mut scope).unwrap();
    assert_eq!(
        Number::<i64>::from_v8(&mut scope, &ev).unwrap(),
        Number(-(1i64 << 50))
    );

    let ev = Number(123usize).to_v8(&mut scope).unwrap();
    assert_eq!(
        Number::<usize>::from_v8(&mut scope, &ev).unwrap(),
        Number(123usize)
    );

    let ev = Number(-123isize).to_v8(&mut scope).unwrap();
    assert_eq!(
        Number::<isize>::from_v8(&mut scope, &ev).unwrap(),
        Number(-123isize)
    );
}

#[test]
fn number_i64_lossy_past_exact_range() {
    let mut scope = Scope::new();
    let lossy: i64 = -((1i64 << 53) + 1);
    let ev = Number(lossy).to_v8(&mut scope).unwrap();
    assert_eq!(ev, Value::Number(-(1i128 << 53)));
    let back: Number<i64> = Number::from_v8(&mut scope, &ev).unwrap();
    assert_eq!(back, Number(-(1i64 << 53)));
}

#[test]
fn number_i64_min_round_trips() {
    let mut scope = Scope::new();
    let ev = Number(i64::MIN).to_v8(&mut scope).unwrap();
    assert_eq!(ev, Value::Number(i64::MIN as i128));
    let back: Number<i64> = Number::from_v8(&mut scope, &ev).unwrap();
    assert_eq!(back, Number(i64::MIN));
}
