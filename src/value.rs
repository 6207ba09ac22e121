//! Runtime values and the partial arithmetic over them.
//!
//! Floating-point numbers are carried as their IEEE-754 bit patterns. The
//! library never performs float arithmetic itself: an operation on two floats
//! yields [`Arith::Float`], which names the operation for the host to carry out.
use vstd::arithmetic::power::pow;
use vstd::prelude::*;

verus! {

/// A runtime value.
#[derive(Debug, Clone)]
pub enum Value {
    Int(i64),
    UInt(u64),
    /// The IEEE-754 binary64 bit pattern of a float.
    Float(u64),
    Bool(bool),
    String(String),
}

/// A runtime fault. Every fault stops execution.
#[derive(Debug, Clone, Copy, PartialEq, Eq, Structural)]
pub enum Fault {
    StackUnderflow,
    CallStackUnderflow,
    TypeMismatch,
    DivisionByZero,
    /// An integer result does not fit its type.
    Overflow,
    UndefinedVariable,
    UndefinedLabel,
    UndefinedNativeHandler,
}

/// The binary arithmetic operations.
#[derive(Debug, Clone, Copy, PartialEq, Eq, Structural)]
pub enum BinOp {
    Add,
    Sub,
    Mul,
    Div,
    Mod,
    Exp,
}

/// A float operation left to the host: arithmetic yields a `Float`, a
/// comparison a `Bool`.
#[derive(Debug, Clone, Copy, PartialEq, Eq, Structural)]
pub enum FloatOp {
    Add,
    Sub,
    Mul,
    Div,
    Pow,
    Equal,
    NotEqual,
    Greater,
    Less,
    GreaterEqual,
    LessEqual,
}

/// The ordering comparisons.
#[derive(Debug, Clone, Copy, PartialEq, Eq, Structural)]
pub enum CmpOp {
    Greater,
    Less,
    GreaterEqual,
    LessEqual,
}

/// What an operation on two values comes to.
#[derive(Debug)]
pub enum Arith {
    /// The result value.
    Done(Value),
    /// A float operation on two bit patterns, for the host to compute.
    Float(FloatOp, u64, u64),
}

/// Whether the float with bit pattern `bits` is a zero (positive or negative).
pub open spec fn float_is_zero(bits: u64) -> bool {
    bits & 0x7fff_ffff_ffff_ffffu64 == 0
}

/// The float form of an arithmetic operation. `Mod` has none: on floats it is
/// a type mismatch, so its entry here is never used.
pub open spec fn float_op_of(op: BinOp) -> FloatOp {
    match op {
        BinOp::Add => FloatOp::Add,
        BinOp::Sub => FloatOp::Sub,
        BinOp::Mul => FloatOp::Mul,
        BinOp::Div => FloatOp::Div,
        BinOp::Mod => FloatOp::Add,
        BinOp::Exp => FloatOp::Pow,
    }
}

/// The exact integer result of `a op b`, or the fault it raises
/// (division and remainder truncate toward zero, as Rust's do).
pub open spec fn int_result(op: BinOp, a: int, b: int) -> Result<int, Fault> {
    match op {
        BinOp::Add => Ok(a + b),
        BinOp::Sub => Ok(a - b),
        BinOp::Mul => Ok(a * b),
        BinOp::Div => if b == 0 {
            Err(Fault::DivisionByZero)
        } else {
            Ok(trunc_div(a, b))
        },
        BinOp::Mod => if b == 0 {
            Err(Fault::DivisionByZero)
        } else {
            Ok(trunc_rem(a, b))
        },
        BinOp::Exp => Ok(pow(a, exponent_of(b))),
    }
}

/// Division rounding toward zero.
pub open spec fn trunc_div(a: int, b: int) -> int {
    if a == 0 {
        0
    } else if a > 0 && b > 0 {
        a / b
    } else if a < 0 && b < 0 {
        (a * -1) / (b * -1)
    } else if a < 0 {
        ((a * -1) / b) * -1
    } else {
        (a / (b * -1)) * -1
    }
}

/// The remainder of division rounding toward zero; it takes the sign of `a`.
pub open spec fn trunc_rem(a: int, b: int) -> int {
    if a == 0 {
        0
    } else if a > 0 && b > 0 {
        a % b
    } else if a < 0 && b < 0 {
        ((a * -1) % (b * -1)) * -1
    } else if a < 0 {
        ((a * -1) % b) * -1
    } else {
        a % (b * -1)
    }
}

/// The exponent an integer power uses: the operand cut to its low 32 bits.
pub open spec fn exponent_of(b: int) -> nat {
    let m = b % 0x1_0000_0000;
    m as nat
}

/// The result of `a op b` on two values.
pub open spec fn binary_spec(op: BinOp, a: Value, b: Value) -> Result<Arith, Fault> {
    match (a, b) {
        (Value::Int(x), Value::Int(y)) => match int_result(op, x as int, y as int) {
            Ok(r) => if i64::MIN <= r <= i64::MAX {
                Ok(Arith::Done(Value::Int(r as i64)))
            } else {
                Err(Fault::Overflow)
            },
            Err(f) => Err(f),
        },
        (Value::UInt(x), Value::UInt(y)) => match int_result(op, x as int, y as int) {
            Ok(r) => if 0 <= r <= u64::MAX {
                Ok(Arith::Done(Value::UInt(r as u64)))
            } else {
                Err(Fault::Overflow)
            },
            Err(f) => Err(f),
        },
        (Value::Float(x), Value::Float(y)) => if op == BinOp::Mod {
            Err(Fault::TypeMismatch)
        } else if op == BinOp::Div && float_is_zero(y) {
            Err(Fault::DivisionByZero)
        } else {
            Ok(Arith::Float(float_op_of(op), x, y))
        },
        _ => Err(Fault::TypeMismatch),
    }
}

/// Relies on `i64::checked_pow`: the power when it fits in an `i64`, else `None`.
#[verifier::external_body]
fn checked_pow_i64(a: i64, e: u32) -> (r: Option<i64>)
    ensures
        match r {
            Some(v) => v == pow(a as int, e as nat),
            None => !(i64::MIN <= pow(a as int, e as nat) <= i64::MAX),
        },
{
    a.checked_pow(e)
}

/// Relies on `u64::checked_pow`: the power when it fits in a `u64`, else `None`.
#[verifier::external_body]
fn checked_pow_u64(a: u64, e: u32) -> (r: Option<u64>)
    ensures
        match r {
            Some(v) => v == pow(a as int, e as nat),
            None => !(0 <= pow(a as int, e as nat) <= u64::MAX),
        },
{
    a.checked_pow(e)
}

/// The low 32 bits of an integer, as an exponent.
fn exponent_i64(b: i64) -> (r: u32)
    ensures
        r as nat == exponent_of(b as int),
{
    let r = (b & 0xffff_ffff) as u32;
    assert(b & 0xffff_ffff == b % 0x1_0000_0000) by (bit_vector);
    r
}

fn exponent_u64(b: u64) -> (r: u32)
    ensures
        r as nat == exponent_of(b as int),
{
    let r = (b & 0xffff_ffff) as u32;
    assert(b & 0xffff_ffff == b % 0x1_0000_0000) by (bit_vector);
    r
}

fn int_binary(op: BinOp, a: i64, b: i64) -> (r: Result<Arith, Fault>)
    ensures
        r == binary_spec(op, Value::Int(a), Value::Int(b)),
{
    let res = match op {
        BinOp::Add => a.checked_add(b),
        BinOp::Sub => a.checked_sub(b),
        BinOp::Mul => a.checked_mul(b),
        BinOp::Div => {
            if b == 0 {
                return Err(Fault::DivisionByZero);
            }
            a.checked_div(b)
        },
        BinOp::Mod => {
            if b == 0 {
                return Err(Fault::DivisionByZero);
            }
            if b == -1 {
                Some(0)
            } else {
                a.checked_rem(b)
            }
        },
        BinOp::Exp => checked_pow_i64(a, exponent_i64(b)),
    };
    match res {
        Some(v) => Ok(Arith::Done(Value::Int(v))),
        None => Err(Fault::Overflow),
    }
}

fn uint_binary(op: BinOp, a: u64, b: u64) -> (r: Result<Arith, Fault>)
    ensures
        r == binary_spec(op, Value::UInt(a), Value::UInt(b)),
{
    let res = match op {
        BinOp::Add => a.checked_add(b),
        BinOp::Sub => a.checked_sub(b),
        BinOp::Mul => a.checked_mul(b),
        BinOp::Div => {
            if b == 0 {
                return Err(Fault::DivisionByZero);
            }
            assert(trunc_div(a as int, b as int) == a as int / b as int) by (nonlinear_arith)
                requires b > 0, a >= 0;
            Some(a / b)
        },
        BinOp::Mod => {
            if b == 0 {
                return Err(Fault::DivisionByZero);
            }
            assert(trunc_rem(a as int, b as int) == a as int % b as int) by (nonlinear_arith)
                requires b > 0, a >= 0;
            Some(a % b)
        },
        BinOp::Exp => checked_pow_u64(a, exponent_u64(b)),
    };
    match res {
        Some(v) => Ok(Arith::Done(Value::UInt(v))),
        None => Err(Fault::Overflow),
    }
}

fn float_op(op: BinOp) -> (r: FloatOp)
    ensures
        r == float_op_of(op),
{
    match op {
        BinOp::Add => FloatOp::Add,
        BinOp::Sub => FloatOp::Sub,
        BinOp::Mul => FloatOp::Mul,
        BinOp::Div => FloatOp::Div,
        BinOp::Mod => FloatOp::Add,
        BinOp::Exp => FloatOp::Pow,
    }
}

/// `a op b` on two values.
pub fn binary(op: BinOp, a: &Value, b: &Value) -> (r: Result<Arith, Fault>)
    ensures
        r == binary_spec(op, *a, *b),
{
    match (a, b) {
        (Value::Int(x), Value::Int(y)) => int_binary(op, *x, *y),
        (Value::UInt(x), Value::UInt(y)) => uint_binary(op, *x, *y),
        (Value::Float(x), Value::Float(y)) => {
            if op == BinOp::Mod {
                Err(Fault::TypeMismatch)
            } else if op == BinOp::Div && *y & 0x7fff_ffff_ffff_ffffu64 == 0 {
                Err(Fault::DivisionByZero)
            } else {
                Ok(Arith::Float(float_op(op), *x, *y))
            }
        },
        _ => Err(Fault::TypeMismatch),
    }
}

/// Structural equality: same variant and same payload (strings by their
/// characters, floats by their bit patterns).
pub open spec fn same_value(a: Value, b: Value) -> bool {
    match (a, b) {
        (Value::Int(x), Value::Int(y)) => x == y,
        (Value::UInt(x), Value::UInt(y)) => x == y,
        (Value::Float(x), Value::Float(y)) => x == y,
        (Value::Bool(x), Value::Bool(y)) => x == y,
        (Value::String(x), Value::String(y)) => x@ == y@,
        _ => false,
    }
}

pub open spec fn int_order(op: CmpOp, a: int, b: int) -> bool {
    match op {
        CmpOp::Greater => a > b,
        CmpOp::Less => a < b,
        CmpOp::GreaterEqual => a >= b,
        CmpOp::LessEqual => a <= b,
    }
}

pub open spec fn float_cmp_of(op: CmpOp) -> FloatOp {
    match op {
        CmpOp::Greater => FloatOp::Greater,
        CmpOp::Less => FloatOp::Less,
        CmpOp::GreaterEqual => FloatOp::GreaterEqual,
        CmpOp::LessEqual => FloatOp::LessEqual,
    }
}

/// An ordering comparison: defined on two values of the same numeric variant.
pub open spec fn compare_spec(op: CmpOp, a: Value, b: Value) -> Result<Arith, Fault> {
    match (a, b) {
        (Value::Int(x), Value::Int(y)) => Ok(Arith::Done(Value::Bool(int_order(op, x as int, y as int)))),
        (Value::UInt(x), Value::UInt(y)) => Ok(Arith::Done(Value::Bool(int_order(op, x as int, y as int)))),
        (Value::Float(x), Value::Float(y)) => Ok(Arith::Float(float_cmp_of(op), x, y)),
        _ => Err(Fault::TypeMismatch),
    }
}

/// Equality (or, with `negate`, inequality) of two values: defined on every
/// pair, and false across variants. Two floats go to the host.
pub open spec fn equality_spec(a: Value, b: Value, negate: bool) -> Arith {
    match (a, b) {
        (Value::Float(x), Value::Float(y)) => Arith::Float(
            if negate { FloatOp::NotEqual } else { FloatOp::Equal },
            x,
            y,
        ),
        _ => Arith::Done(Value::Bool(same_value(a, b) != negate)),
    }
}

fn int_order_exec(op: CmpOp, a: i64, b: i64) -> (r: bool)
    ensures
        r == int_order(op, a as int, b as int),
{
    match op {
        CmpOp::Greater => a > b,
        CmpOp::Less => a < b,
        CmpOp::GreaterEqual => a >= b,
        CmpOp::LessEqual => a <= b,
    }
}

fn uint_order_exec(op: CmpOp, a: u64, b: u64) -> (r: bool)
    ensures
        r == int_order(op, a as int, b as int),
{
    match op {
        CmpOp::Greater => a > b,
        CmpOp::Less => a < b,
        CmpOp::GreaterEqual => a >= b,
        CmpOp::LessEqual => a <= b,
    }
}

/// An ordering comparison of two values.
pub fn compare(op: CmpOp, a: &Value, b: &Value) -> (r: Result<Arith, Fault>)
    ensures
        r == compare_spec(op, *a, *b),
{
    match (a, b) {
        (Value::Int(x), Value::Int(y)) => Ok(Arith::Done(Value::Bool(int_order_exec(op, *x, *y)))),
        (Value::UInt(x), Value::UInt(y)) => Ok(Arith::Done(Value::Bool(uint_order_exec(op, *x, *y)))),
        (Value::Float(x), Value::Float(y)) => {
            let f = match op {
                CmpOp::Greater => FloatOp::Greater,
                CmpOp::Less => FloatOp::Less,
                CmpOp::GreaterEqual => FloatOp::GreaterEqual,
                CmpOp::LessEqual => FloatOp::LessEqual,
            };
            Ok(Arith::Float(f, *x, *y))
        },
        _ => Err(Fault::TypeMismatch),
    }
}

/// Equality, or with `negate` inequality, of two values.
pub fn equality(a: &Value, b: &Value, negate: bool) -> (r: Arith)
    ensures
        r == equality_spec(*a, *b, negate),
{
    match (a, b) {
        (Value::Float(x), Value::Float(y)) => Arith::Float(
            if negate { FloatOp::NotEqual } else { FloatOp::Equal },
            *x,
            *y,
        ),
        _ => Arith::Done(Value::Bool(a.eq(b) != negate)),
    }
}

impl PartialEq for Value {
    fn eq(&self, other: &Value) -> (r: bool)
        ensures
            r == same_value(*self, *other),
    {
        match (self, other) {
            (Value::Int(x), Value::Int(y)) => *x == *y,
            (Value::UInt(x), Value::UInt(y)) => *x == *y,
            (Value::Float(x), Value::Float(y)) => *x == *y,
            (Value::Bool(x), Value::Bool(y)) => *x == *y,
            (Value::String(x), Value::String(y)) => x.eq(y),
            _ => false,
        }
    }
}

impl vstd::std_specs::cmp::PartialEqSpecImpl for Value {
    open spec fn obeys_eq_spec() -> bool {
        true
    }

    open spec fn eq_spec(&self, other: &Value) -> bool {
        same_value(*self, *other)
    }
}

impl Value {
    /// `self + other`.
    pub fn add(&self, other: &Value) -> (r: Result<Arith, Fault>)
        ensures
            r == binary_spec(BinOp::Add, *self, *other),
    {
        binary(BinOp::Add, self, other)
    }

    /// `self - other`.
    pub fn sub(&self, other: &Value) -> (r: Result<Arith, Fault>)
        ensures
            r == binary_spec(BinOp::Sub, *self, *other),
    {
        binary(BinOp::Sub, self, other)
    }

    /// `self * other`.
    pub fn mul(&self, other: &Value) -> (r: Result<Arith, Fault>)
        ensures
            r == binary_spec(BinOp::Mul, *self, *other),
    {
        binary(BinOp::Mul, self, other)
    }

    /// `self / other`, rounding toward zero on integers.
    pub fn div(&self, other: &Value) -> (r: Result<Arith, Fault>)
        ensures
            r == binary_spec(BinOp::Div, *self, *other),
    {
        binary(BinOp::Div, self, other)
    }

    /// `self % other`, on integers only.
    pub fn mod_op(&self, other: &Value) -> (r: Result<Arith, Fault>)
        ensures
            r == binary_spec(BinOp::Mod, *self, *other),
    {
        binary(BinOp::Mod, self, other)
    }

    /// `self` raised to `other`; an integer exponent is cut to its low 32 bits.
    pub fn exp(&self, other: &Value) -> (r: Result<Arith, Fault>)
        ensures
            r == binary_spec(BinOp::Exp, *self, *other),
    {
        binary(BinOp::Exp, self, other)
    }

    /// A copy of this value.
    pub fn duplicate(&self) -> (r: Value)
        ensures
            r == *self,
    {
        match self {
            Value::Int(v) => Value::Int(*v),
            Value::UInt(v) => Value::UInt(*v),
            Value::Float(v) => Value::Float(*v),
            Value::Bool(v) => Value::Bool(*v),
            Value::String(s) => Value::String(s.clone()),
        }
    }
}

} // verus!
