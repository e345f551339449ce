//! Runtime scalar values.
//!
//! A `Value` is what expression evaluation produces: null, a boolean, an
//! integer, a real (kept as its literal text, tag preserved), or a string.

use vstd::prelude::*;

verus! {

/// Mathematical view of a runtime value. Real numbers are modelled by their
/// literal text; the engine performs no floating-point arithmetic on them.
pub enum ValueV {
    Null,
    Bool(bool),
    Int(int),
    Real(Seq<char>),
    Str(Seq<char>),
}

#[derive(Clone, Debug, PartialEq)]
/// A runtime scalar value.
pub enum Value {
    Null,
    Bool(bool),
    Int(i64),
    Real(String),
    Str(String),
}

impl View for Value {
    type V = ValueV;

    open spec fn view(&self) -> ValueV {
        match self {
            Value::Null => ValueV::Null,
            Value::Bool(b) => ValueV::Bool(*b),
            Value::Int(i) => ValueV::Int(*i as int),
            Value::Real(s) => ValueV::Real(s@),
            Value::Str(s) => ValueV::Str(s@),
        }
    }
}

/// Truthiness of a value: `false`, integer `0`, a real whose significand
/// digits are all zero, and the empty string are falsy; other booleans,
/// numbers and strings are truthy; everything else (null) is falsy.
pub open spec fn spec_truthy(v: ValueV) -> bool {
    match v {
        ValueV::Null => false,
        ValueV::Bool(b) => b,
        ValueV::Int(i) => i != 0,
        ValueV::Real(s) => !spec_real_is_zero(s),
        ValueV::Str(s) => s.len() != 0,
    }
}

/// A real literal denotes zero exactly when every digit of its significand
/// (the part before any exponent marker, ignoring a leading sign and the
/// decimal point) is `0` and at least one digit occurs. This textual rule is
/// the engine's numeric policy for zero-testing reals; it never parses
/// floating point.
pub open spec fn spec_real_is_zero(s: Seq<char>) -> bool {
    if s.len() > 0 && (s[0] == '+' || s[0] == '-') {
        spec_mantissa_all_zero(s, 1)
    } else {
        spec_mantissa_all_zero(s, 0)
    }
}

/// Holds when every digit at or after position `i`, up to the first `e`/`E`,
/// is `0`, and at least one digit occurs there.
pub open spec fn spec_mantissa_all_zero(s: Seq<char>, i: int) -> bool
    decreases s.len() - i,
{
    if i < 0 || i >= s.len() || s[i] == 'e' || s[i] == 'E' {
        false
    } else if s[i] == '0' {
        spec_mantissa_rest_zero(s, i + 1)
    } else if s[i] == '.' {
        spec_mantissa_all_zero(s, i + 1)
    } else {
        false
    }
}

/// Holds when every digit from position `i` up to the first `e`/`E` is `0`.
pub open spec fn spec_mantissa_rest_zero(s: Seq<char>, i: int) -> bool
    decreases s.len() - i,
{
    if i < 0 || i >= s.len() || s[i] == 'e' || s[i] == 'E' {
        true
    } else if s[i] == '0' || s[i] == '.' {
        spec_mantissa_rest_zero(s, i + 1)
    } else {
        false
    }
}

impl Value {
    /// Truthiness test, exactly `spec_truthy`.
    pub fn is_truthy(&self) -> (r: bool)
        ensures
            r == spec_truthy(self@),
    {
        match self {
            Value::Null => false,
            Value::Bool(b) => *b,
            Value::Int(i) => *i != 0,
            Value::Real(s) => !real_is_zero(s),
            Value::Str(s) => s.as_str().unicode_len() != 0,
        }
    }
}

/// Decides `spec_real_is_zero` on a real literal.
fn real_is_zero(s: &String) -> (r: bool)
    ensures
        r == spec_real_is_zero(s@),
{
    let t = s.as_str();
    let n = t.unicode_len();
    if n > 0 {
        let c0 = t.get_char(0);
        if c0 == '+' || c0 == '-' {
            return mantissa_all_zero(t, 1);
        }
    }
    mantissa_all_zero(t, 0)
}

/// Decides `spec_mantissa_all_zero`.
fn mantissa_all_zero(t: &str, i: usize) -> (r: bool)
    ensures
        r == spec_mantissa_all_zero(t@, i as int),
    decreases t@.len() - i,
{
    let n = t.unicode_len();
    if i >= n {
        return false;
    }
    let c = t.get_char(i);
    if c == 'e' || c == 'E' {
        false
    } else if c == '0' {
        mantissa_rest_zero(t, i + 1)
    } else if c == '.' {
        mantissa_all_zero(t, i + 1)
    } else {
        false
    }
}

/// Decides `spec_mantissa_rest_zero`.
fn mantissa_rest_zero(t: &str, i: usize) -> (r: bool)
    ensures
        r == spec_mantissa_rest_zero(t@, i as int),
    decreases t@.len() - i,
{
    let n = t.unicode_len();
    if i >= n {
        return true;
    }
    let c = t.get_char(i);
    if c == 'e' || c == 'E' {
        true
    } else if c == '0' || c == '.' {
        mantissa_rest_zero(t, i + 1)
    } else {
        false
    }
}

} // verus!
