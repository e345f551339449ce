//! The variable-assignment step, `<name>: <expression>`.

use vstd::prelude::*;

use crate::flow::{Error, Flow};
use crate::node::Node;
use crate::script::Script;
use crate::semantics::{res_of, var_arm};

verus! {

/// Evaluates the node and writes the value, shadow-aware: the parameter of
/// that name when one is live, else the global variable.
pub fn run(s: &mut Script, name: &str, yaml: &Node) -> (r: Result<Flow, Error>)
    requires
        old(s).wf(),
    ensures
        final(s).wf(),
        var_arm(old(s)@, name@, yaml@, res_of(final(s)@, r)),
{
    match s.binding.eval_to_yaml(yaml) {
        None => Err(Error::Expr),
        Some(val) => {
            s.binding.set_var(name, val);
            Ok(Flow::Done)
        },
    }
}

} // verus!
