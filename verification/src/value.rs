//! The runtime value model: a closed, tagged union.
//!
//! Numbers are 64-bit signed integers.  Functions, classes and instances are
//! addressed by index into the interpreter's arenas, so "the same object"
//! means "the same index" and identity equality is equality of indices.

use vstd::prelude::*;
use crate::token::{Literal, LiteralM};

verus! {

/// A runtime value.  Primitive values are carried inline; callables, classes
/// and instances are handles into the interpreter's arenas.
#[derive(Debug)]
pub enum Value {
    Number(i64),
    Str(String),
    Bool(bool),
    Null,
    Callable(usize),
    Class(usize),
    Instance(usize),
}

/// Mathematical model of a [`Value`].
pub enum ValueM {
    Number(i64),
    Str(Seq<char>),
    Bool(bool),
    Null,
    Callable(usize),
    Class(usize),
    Instance(usize),
}

impl View for Value {
    type V = ValueM;

    open spec fn view(&self) -> ValueM {
        match self {
            Value::Number(n) => ValueM::Number(*n),
            Value::Str(s) => ValueM::Str(s@),
            Value::Bool(b) => ValueM::Bool(*b),
            Value::Null => ValueM::Null,
            Value::Callable(i) => ValueM::Callable(*i),
            Value::Class(i) => ValueM::Class(*i),
            Value::Instance(i) => ValueM::Instance(*i),
        }
    }
}

/// Truthiness: `Null` and `false` are falsy, every other value (including
/// `0` and the empty string) is truthy.
pub open spec fn s_truthy(v: ValueM) -> bool {
    match v {
        ValueM::Null => false,
        ValueM::Bool(b) => b,
        _ => true,
    }
}

/// Truthiness in one sentence: `Null` and `false` are the only falsy values.
pub open spec fn s_truthy_law_holds() -> bool {
    forall|v: ValueM| #[trigger] s_truthy(v) <==> !(v == ValueM::Null || v == ValueM::Bool(false))
}

/// Value equality as used by `==` and `!=`: structural for primitives with no
/// implicit coercion (`Null` equals only `Null`), identity (same arena index)
/// for callables, classes and instances, and `false` across different kinds.
pub open spec fn s_val_eq(a: ValueM, b: ValueM) -> bool {
    match (a, b) {
        (ValueM::Null, ValueM::Null) => true,
        (ValueM::Number(x), ValueM::Number(y)) => x == y,
        (ValueM::Str(x), ValueM::Str(y)) => x == y,
        (ValueM::Bool(x), ValueM::Bool(y)) => x == y,
        (ValueM::Callable(x), ValueM::Callable(y)) => x == y,
        (ValueM::Class(x), ValueM::Class(y)) => x == y,
        (ValueM::Instance(x), ValueM::Instance(y)) => x == y,
        _ => false,
    }
}

impl Clone for Value {
    /// A clone denotes the same model value.
    fn clone(&self) -> (r: Self)
        ensures
            r@ == self@,
    {
        match self {
            Value::Number(n) => Value::Number(*n),
            Value::Str(s) => Value::Str(s.clone()),
            Value::Bool(b) => Value::Bool(*b),
            Value::Null => Value::Null,
            Value::Callable(i) => Value::Callable(*i),
            Value::Class(i) => Value::Class(*i),
            Value::Instance(i) => Value::Instance(*i),
        }
    }
}

/// The value a literal denotes.
pub open spec fn s_lit(l: LiteralM) -> ValueM {
    match l {
        LiteralM::Str(s) => ValueM::Str(s),
        LiteralM::Number(n) => ValueM::Number(n),
        LiteralM::Bool(b) => ValueM::Bool(b),
        LiteralM::Null => ValueM::Null,
    }
}

impl Value {
    /// The value a literal token denotes.
    pub fn from(value: &Literal) -> (r: Value)
        ensures
            r@ == s_lit(value@),
    {
        match value {
            Literal::Str(s) => Value::Str(s.clone()),
            Literal::Number(n) => Value::Number(*n),
            Literal::Bool(b) => Value::Bool(*b),
            Literal::Null => Value::Null,
        }
    }

    /// The truthiness predicate used by every conditional context.
    pub fn is_truthy(&self) -> (r: bool)
        ensures
            r == s_truthy(self@),
    {
        match self {
            Value::Null => false,
            Value::Bool(b) => *b,
            _ => true,
        }
    }

    /// The equality predicate behind `==` and `!=`.
    pub fn is_equal(&self, other: &Value) -> (r: bool)
        ensures
            r == s_val_eq(self@, other@),
    {
        match (self, other) {
            (Value::Null, Value::Null) => true,
            (Value::Number(x), Value::Number(y)) => *x == *y,
            (Value::Str(x), Value::Str(y)) => x.eq(y),
            (Value::Bool(x), Value::Bool(y)) => *x == *y,
            (Value::Callable(x), Value::Callable(y)) => *x == *y,
            (Value::Class(x), Value::Class(y)) => *x == *y,
            (Value::Instance(x), Value::Instance(y)) => *x == *y,
            _ => false,
        }
    }
}

/// Decimal rendering of a digit.
pub open spec fn s_digit(d: int) -> Seq<char> {
    if d == 0 { "0"@ }
    else if d == 1 { "1"@ }
    else if d == 2 { "2"@ }
    else if d == 3 { "3"@ }
    else if d == 4 { "4"@ }
    else if d == 5 { "5"@ }
    else if d == 6 { "6"@ }
    else if d == 7 { "7"@ }
    else if d == 8 { "8"@ }
    else { "9"@ }
}

/// Decimal rendering of a non-negative quantity.
pub open spec fn s_decimal(n: int) -> Seq<char>
    decreases n,
{
    if n < 10 { s_digit(n) } else { s_decimal(n / 10) + s_digit(n % 10) }
}

/// Decimal rendering of a number value, with a leading minus sign when
/// negative.
pub open spec fn s_num_text(n: i64) -> Seq<char> {
    if n >= 0 { s_decimal(n as int) } else { "-"@ + s_decimal(-(n as int)) }
}

fn digit_text(d: u64) -> (r: &'static str)
    requires
        d < 10,
    ensures
        r@ == s_digit(d as int),
{
    match d {
        0u64 => "0",
        1u64 => "1",
        2u64 => "2",
        3u64 => "3",
        4u64 => "4",
        5u64 => "5",
        6u64 => "6",
        7u64 => "7",
        8u64 => "8",
        _ => "9",
    }
}

fn decimal_text(n: u64) -> (r: String)
    ensures
        r@ == s_decimal(n as int),
    decreases n,
{
    if n < 10 {
        String::from_str(digit_text(n))
    } else {
        let mut s = decimal_text(n / 10);
        s.append(digit_text(n % 10));
        s
    }
}

/// Decimal rendering of an unsigned quantity, exactly [`s_decimal`].
pub fn nat_text(n: u64) -> (r: String)
    ensures
        r@ == s_decimal(n as int),
{
    decimal_text(n)
}

/// Decimal rendering of a signed number, exactly [`s_num_text`].
pub fn num_text(n: i64) -> (r: String)
    ensures
        r@ == s_num_text(n),
{
    if n >= 0 {
        decimal_text(n as u64)
    } else {
        let mag: u64 = if n == i64::MIN {
            9223372036854775808u64
        } else {
            (-n) as u64
        };
        let mut s = String::from_str("-");
        let d = decimal_text(mag);
        s.append(d.as_str());
        s
    }
}

} // verus!
