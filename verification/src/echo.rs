//! The `echo` step: evaluate to text, write one line.

use vstd::prelude::*;

use crate::flow::{Error, Flow};
use crate::node::Node;
use crate::script::Script;
use crate::semantics::{echo_arm, res_of, StateV};

verus! {

/// Evaluates the expression and writes the text as one line.
pub fn run(s: &mut Script, expr: &Node) -> (r: Result<Flow, Error>)
    requires
        old(s).wf(),
    ensures
        final(s).wf(),
        echo_arm(old(s)@, expr@, res_of(final(s)@, r)),
{
    match s.binding.eval_to_string(expr) {
        None => Err(Error::Expr),
        Some(text) => {
            write(s, text);
            Ok(Flow::Done)
        },
    }
}

/// Writes one already-evaluated line to the script's sink.
pub fn write(s: &mut Script, val: String)
    requires
        old(s).wf(),
    ensures
        final(s).wf(),
        final(s)@ == (StateV { lines: old(s)@.lines.push(val@), ..old(s)@ }),
{
    s.writer.write(val);
}

} // verus!
