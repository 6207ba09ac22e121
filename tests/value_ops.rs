use vvm::{Arith, Fault, FloatOp, Value};

fn done(r: Result<Arith, Fault>) -> Value {
    match r {
        Ok(Arith::Done(v)) => v,
        other => panic!("expected a value, got {:?}", other),
    }
}

#[test]
fn uint_add_gives_eight() {
    assert_eq!(done(Value::UInt(3).add(&Value::UInt(5))), Value::UInt(8));
}

#[test]
fn int_arithmetic_exact_values() {
    assert_eq!(done(Value::Int(7).sub(&Value::Int(10))), Value::Int(-3));
    assert_eq!(done(Value::Int(-6).mul(&Value::Int(7))), Value::Int(-42));
    assert_eq!(done(Value::Int(-7).div(&Value::Int(2))), Value::Int(-3));
    assert_eq!(done(Value::Int(-7).mod_op(&Value::Int(2))), Value::Int(-1));
    assert_eq!(done(Value::Int(7).mod_op(&Value::Int(-2))), Value::Int(1));
    assert_eq!(done(Value::UInt(17).mod_op(&Value::UInt(5))), Value::UInt(2));
}

#[test]
fn integer_power() {
    assert_eq!(done(Value::Int(2).exp(&Value::Int(10))), Value::Int(1024));
    assert_eq!(done(Value::UInt(3).exp(&Value::UInt(4))), Value::UInt(81));
    assert_eq!(done(Value::Int(-2).exp(&Value::Int(3))), Value::Int(-8));
    // the exponent is cut to its low 32 bits: 2^32 + 1 acts as 1
    assert_eq!(done(Value::Int(5).exp(&Value::Int(4_294_967_297))), Value::Int(5));
    // a negative exponent is a huge one after the cut
    assert_eq!(done(Value::Int(1).exp(&Value::Int(-1))), Value::Int(1));
    assert!(matches!(Value::Int(2).exp(&Value::Int(-1)), Err(Fault::Overflow)));
}

#[test]
fn division_by_zero_faults() {
    assert!(matches!(Value::Int(10).div(&Value::Int(0)), Err(Fault::DivisionByZero)));
    assert!(matches!(Value::UInt(10).mod_op(&Value::UInt(0)), Err(Fault::DivisionByZero)));
    assert!(matches!(Value::Float(1.0f64.to_bits()).div(&Value::Float(0.0f64.to_bits())), Err(Fault::DivisionByZero)));
    assert!(matches!(Value::Float(1.0f64.to_bits()).div(&Value::Float((-0.0f64).to_bits())), Err(Fault::DivisionByZero)));
}

#[test]
fn overflow_faults() {
    assert!(matches!(Value::Int(i64::MAX).add(&Value::Int(1)), Err(Fault::Overflow)));
    assert!(matches!(Value::UInt(0).sub(&Value::UInt(1)), Err(Fault::Overflow)));
    assert!(matches!(Value::Int(i64::MIN).div(&Value::Int(-1)), Err(Fault::Overflow)));
    assert_eq!(done(Value::Int(i64::MIN).mod_op(&Value::Int(-1))), Value::Int(0));
    assert!(matches!(Value::UInt(u64::MAX).mul(&Value::UInt(2)), Err(Fault::Overflow)));
}

#[test]
fn mismatched_operands_fault() {
    assert!(matches!(Value::Int(1).add(&Value::UInt(1)), Err(Fault::TypeMismatch)));
    assert!(matches!(Value::Bool(true).add(&Value::Bool(true)), Err(Fault::TypeMismatch)));
    assert!(matches!(
        Value::String("a".to_string()).add(&Value::String("b".to_string())),
        Err(Fault::TypeMismatch)
    ));
    assert!(matches!(
        Value::Float(1.0f64.to_bits()).mod_op(&Value::Float(1.0f64.to_bits())),
        Err(Fault::TypeMismatch)
    ));
}

#[test]
fn float_operations_go_to_the_host() {
    let a = 1.5f64.to_bits();
    let b = 2.0f64.to_bits();
    match Value::Float(a).add(&Value::Float(b)) {
        Ok(Arith::Float(FloatOp::Add, x, y)) => assert_eq!((x, y), (a, b)),
        other => panic!("unexpected {:?}", other),
    }
    assert!(matches!(Value::Float(a).exp(&Value::Float(b)), Ok(Arith::Float(FloatOp::Pow, _, _))));
}

#[test]
fn value_equality_is_structural() {
    assert_eq!(Value::String("x".to_string()), Value::String("x".to_string()));
    assert_ne!(Value::Int(1), Value::UInt(1));
    assert_ne!(Value::Int(1), Value::Bool(true));
}
