//! The `def` step: register a named procedure, its steps unevaluated;
//! redefinition overwrites.

use vstd::prelude::*;

use crate::binding::Binding;
use crate::flow::{Error, Flow};
use crate::node::Node;
use crate::script::Script;
use crate::semantics::{def_arm, res_of};

verus! {

/// Registers the `do:` list under the given name.
pub fn run(s: &mut Script, name: &Node, step: &Vec<(Node, Node)>) -> (r: Result<Flow, Error>)
    requires
        old(s).wf(),
    ensures
        final(s).wf(),
        def_arm(old(s)@, name@, crate::node::entries_v(step@), res_of(final(s)@, r)),
{
    let name_s = match name {
        Node::Str(t) => t,
        _ => {
            return Err(Error::Malformed(String::from_str("expected string")));
        },
    };
    match Binding::entry_to_list(step, "do") {
        Err(e) => Err(e),
        Ok(body) => {
            s.binding.set_proc(name_s.as_str(), Node::Array(body));
            Ok(Flow::Done)
        },
    }
}

} // verus!
