//! The `break` step: when the condition is truthy, raise the break signal
//! with the record's message.

use vstd::prelude::*;

use crate::flow::{Error, Flow};
use crate::node::{hash_get, Node};
use crate::script::Script;
use crate::semantics::{break_arm, res_of};

verus! {

/// Evaluates the condition; when truthy, yields a break carrying the
/// `message` entry (default `(break)`), which only a loop or the runner
/// consumes.
pub fn run(s: &mut Script, cond: &Node, step: &Vec<(Node, Node)>) -> (r: Result<Flow, Error>)
    requires
        old(s).wf(),
    ensures
        final(s).wf(),
        break_arm(old(s)@, cond@, crate::node::entries_v(step@), res_of(final(s)@, r)),
{
    match s.binding.is_truthy(cond) {
        None => Err(Error::Expr),
        Some(false) => Ok(Flow::Done),
        Some(true) => match hash_get(step, "message") {
            None => Ok(Flow::Break(String::from_str("(break)"))),
            Some(m) => match m {
                Node::Str(text) => Ok(Flow::Break(text.clone())),
                _ => Err(Error::Malformed(String::from_str("expected string"))),
            },
        },
    }
}

} // verus!
