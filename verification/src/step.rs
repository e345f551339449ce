//! The step dispatcher.
//!
//! A step record is a one-entry mapping; the sole key routes to the
//! matching handler, and any unrecognized key is a variable assignment.

use vstd::prelude::*;

use crate::flow::{Error, Flow};
use crate::host::Host;
use crate::node::{entries_v, Node};
use crate::script::Script;
use crate::semantics::{res_of, step_rel};
use crate::text::str_eq;
use crate::{break_step, call, def, each, echo, exec, exit, if_step, var, while_step};

verus! {

/// Runs one step record.
pub fn run<H: Host>(
    s: &mut Script,
    host: &mut H,
    step: &Vec<(Node, Node)>,
    fuel: u64,
) -> (r: Result<Flow, Error>)
    requires
        old(s).wf(),
    ensures
        final(s).wf(),
        step_rel(old(s)@, entries_v(step@), fuel as nat, res_of(final(s)@, r)),
    decreases fuel, 2int, 0int,
{
    proof {
        crate::node::lemma_entries_v(step@);
    }
    if step.len() == 0 {
        return Err(Error::Malformed(String::from_str("empty step")));
    }
    let key = match &step[0].0 {
        Node::Str(k) => k,
        _ => {
            return Err(Error::Malformed(String::from_str("expected string key")));
        },
    };
    let k = key.as_str();
    if str_eq(k, "break") {
        break_step::run(s, &step[0].1, step)
    } else if str_eq(k, "call") {
        call::run(s, host, &step[0].1, step, fuel)
    } else if str_eq(k, "def") {
        def::run(s, &step[0].1, step)
    } else if str_eq(k, "each") {
        each::run(s, host, &step[0].1, step, fuel)
    } else if str_eq(k, "echo") {
        echo::run(s, &step[0].1)
    } else if str_eq(k, "exec") {
        exec::run(s, host, &step[0].1, step)
    } else if str_eq(k, "exit") {
        exit::run(s, &step[0].1)
    } else if str_eq(k, "if") {
        if_step::run(s, host, &step[0].1, step, fuel)
    } else if str_eq(k, "while") {
        while_step::run(s, host, &step[0].1, step, fuel)
    } else {
        var::run(s, k, &step[0].1)
    }
}

} // verus!
