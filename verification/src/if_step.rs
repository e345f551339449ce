//! The `if` step: evaluate the condition once and run the chosen branch; a
//! missing branch is a structural error, not a no-op.

use vstd::prelude::*;

use crate::binding::Binding;
use crate::flow::{Error, Flow};
use crate::host::Host;
use crate::node::Node;
use crate::script::Script;
use crate::semantics::{if_arm, res_of};

verus! {

/// Runs `then:` when the condition is truthy, else `else:`; a break in the
/// branch propagates.
pub fn run<H: Host>(
    s: &mut Script,
    host: &mut H,
    cond: &Node,
    step: &Vec<(Node, Node)>,
    fuel: u64,
) -> (r: Result<Flow, Error>)
    requires
        old(s).wf(),
    ensures
        final(s).wf(),
        if_arm(old(s)@, cond@, crate::node::entries_v(step@), fuel as nat, res_of(final(s)@, r)),
    decreases fuel, 1int, 1int,
{
    let t = match s.binding.is_truthy(cond) {
        None => {
            return Err(Error::Expr);
        },
        Some(t) => t,
    };
    let branch = match Binding::entry_to_list(step, if t {
        "then"
    } else {
        "else"
    }) {
        Err(e) => {
            return Err(e);
        },
        Ok(b) => b,
    };
    if fuel == 0 {
        return Err(Error::Depth);
    }
    s.run_steps_fuel(host, &branch, fuel - 1)
}

} // verus!
