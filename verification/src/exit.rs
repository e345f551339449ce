//! The `exit` step: end the whole run with a status, bypassing the break
//! protocol; nothing intercepts it short of the host.

use vstd::prelude::*;

use crate::flow::{Error, Flow};
use crate::node::Node;
use crate::script::Script;
use crate::semantics::{res_of, spec_exit_step};

verus! {

/// Evaluates the status expression; the run ends with that status.
pub fn run(s: &mut Script, code: &Node) -> (r: Result<Flow, Error>)
    requires
        old(s).wf(),
    ensures
        final(s).wf(),
        spec_exit_step(old(s)@, code@, res_of(final(s)@, r)),
{
    match s.binding.eval_to_i32(code) {
        Err(e) => Err(e),
        Ok(c) => Ok(Flow::Exit(c)),
    }
}

} // verus!
