//! The `call` step: run a registered procedure with a parameter overlay.
//!
//! The `with:` values are evaluated in the caller's scope before the new
//! parameters are installed; the saved parameter set is restored
//! unconditionally on return, whatever the body ended with. `call` never
//! intercepts a break: an uncaught break inside a procedure unwinds through
//! the call into whatever loop encloses the call site.

use vstd::prelude::*;

use crate::flow::{Error, Flow};
use crate::host::Host;
use crate::node::{hash_get, Node, NodeV};
use crate::script::Script;
use crate::semantics::{call_rel, mid_step, res_of};

verus! {

/// Pushes the parameters, runs the procedure's body, restores the saved
/// parameters on every path.
pub fn run<H: Host>(
    s: &mut Script,
    host: &mut H,
    name: &Node,
    step: &Vec<(Node, Node)>,
    fuel: u64,
) -> (r: Result<Flow, Error>)
    requires
        old(s).wf(),
    ensures
        final(s).wf(),
        call_rel(old(s)@, name@, crate::node::entries_v(step@), fuel as nat, res_of(final(s)@, r)),
        final(s).binding.params@ == old(s).binding.params@,
    decreases fuel, 1int, 1int,
{
    let name_s = match name {
        Node::Str(t) => t.clone(),
        _ => {
            return Err(Error::Malformed(String::from_str("expected string")));
        },
    };
    let saved_r = match hash_get(step, "with") {
        None => {
            let none_entries: Vec<(Node, Node)> = Vec::new();
            proof {
                assert(crate::node::entries_v(none_entries@) =~= Seq::<(NodeV, NodeV)>::empty());
            }
            s.binding.set_params(&none_entries)
        },
        Some(n) => match n {
            Node::Hash(h) => s.binding.set_params(h),
            _ => {
                return Err(Error::Malformed(String::from_str("expected mapping")));
            },
        },
    };
    let saved = match saved_r {
        Err(e) => {
            return Err(e);
        },
        Ok(sv) => sv,
    };
    let body = match s.binding.proc(name_s.as_str()) {
        None => {
            s.binding.params = saved;
            return Err(Error::NoProc(name_s));
        },
        Some(p) => match p {
            Node::Array(b) => b,
            _ => {
                s.binding.params = saved;
                return Err(Error::Malformed(String::from_str("expected list")));
            },
        },
    };
    if fuel == 0 {
        s.binding.params = saved;
        return Err(Error::Depth);
    }
    let r = s.run_steps_fuel(host, &body, fuel - 1);
    let ghost mid = s@;
    s.binding.params = saved;
    proof {
        let r1 = res_of(mid, r);
        assert(mid_step(r1));
    }
    r
}

} // verus!
