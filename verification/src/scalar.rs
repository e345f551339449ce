//! Reading interpolated text back as a document scalar.
//!
//! After `${...}` substitution, the engine re-reads the resulting text as a
//! document leaf, so that `"${a}"` with a numeric `a` yields a number and
//! not a string. What scalar a given text denotes is the document format's
//! business, named here by `scalar_of` and computed by the format library.

use vstd::prelude::*;

use crate::value::{Value, ValueV};

verus! {

/// The scalar a piece of text denotes when read back as a document leaf.
/// A function of the text alone.
pub uninterp spec fn scalar_of(s: Seq<char>) -> ValueV;

/// Relies on yaml_rust2's `Yaml::from_str`: it interprets a scalar string as
/// a YAML leaf (null, boolean, integer, real, or plain string) and never
/// yields a container, and in the real and plain-string cases it keeps the
/// input text itself, which the last two clauses state.
#[verifier::external_body]
pub(crate) fn parse_scalar(s: &String) -> (r: Value)
    ensures
        r@ == scalar_of(s@),
        (r@ matches ValueV::Real(t) ==> t == s@),
        (r@ matches ValueV::Str(t) ==> t == s@),
{
    match yaml_rust2::Yaml::from_str(s.as_str()) {
        yaml_rust2::Yaml::Null => Value::Null,
        yaml_rust2::Yaml::Boolean(b) => Value::Bool(b),
        yaml_rust2::Yaml::Integer(i) => Value::Int(i),
        yaml_rust2::Yaml::Real(t) => Value::Real(t),
        yaml_rust2::Yaml::String(t) => Value::Str(t),
        _ => Value::Str(s.clone()),
    }
}

} // verus!
