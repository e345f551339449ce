//! The engine's laws: properties of the semantics that hold for every
//! script, proved once and for all against the relations in `semantics`.

use vstd::prelude::*;

use crate::binding::{spec_install, spec_is_truthy, spec_with_pairs};
use crate::flow::{ErrV, FlowV};
use crate::node::NodeV;
use crate::semantics::{
    break_arm, call_rel, call_with_rel, docs_rel, each_rel, if_arm, mid_step, run_rel,
    spec_break_message, spec_capture, spec_entry_list, spec_strip_nl, spec_var_step, steps_rel,
    while_rel, StateV, StepRes,
};
use crate::host::OutcomeV;

verus! {

/// One truthiness predicate governs every conditional construct: a `break`
/// raises exactly when its condition is truthy and is a no-op otherwise,
/// leaving the state untouched either way.
pub proof fn law_break_raises_iff_truthy(
    st: StateV,
    cond: NodeV,
    entries: Seq<(NodeV, NodeV)>,
    m: Seq<char>,
)
    requires
        spec_break_message(entries) == Ok::<Seq<char>, ErrV>(m),
    ensures
        spec_is_truthy(cond, st.vars, st.params) == Some(true) ==> break_arm(
            st,
            cond,
            entries,
            Ok::<(StateV, FlowV), ErrV>((st, FlowV::Break(m))),
        ),
        spec_is_truthy(cond, st.vars, st.params) == Some(false) ==> break_arm(
            st,
            cond,
            entries,
            Ok::<(StateV, FlowV), ErrV>((st, FlowV::Done)),
        ),
        forall|st2: StateV, m2: Seq<char>|
            spec_is_truthy(cond, st.vars, st.params) == Some(false) ==> !break_arm(
                st,
                cond,
                entries,
                Ok::<(StateV, FlowV), ErrV>((st2, FlowV::Break(m2))),
            ),
{
}

/// The same predicate picks the branch of `if`: with a truthy condition the
/// step behaves as its `then:` list, with a falsy one as its `else:` list.
pub proof fn law_if_picks_branch(
    st: StateV,
    cond: NodeV,
    entries: Seq<(NodeV, NodeV)>,
    fuel: nat,
    t: bool,
    res: StepRes,
)
    requires
        spec_is_truthy(cond, st.vars, st.params) == Some(t),
        fuel > 0,
    ensures
        if_arm(st, cond, entries, fuel, res) <==> (match spec_entry_list(entries, if t {
            "then"@
        } else {
            "else"@
        }) {
            Err(e) => res == Err::<(StateV, FlowV), ErrV>(e),
            Ok(branch) => steps_rel(st, branch, 0, (fuel - 1) as nat, res),
        }),
{
}

/// The same predicate stops `while`: a falsy condition ends the loop at
/// once, successfully and without touching the state.
pub proof fn law_while_stops_when_falsy(st: StateV, cond: NodeV, body: Seq<NodeV>, fuel: nat)
    requires
        spec_is_truthy(cond, st.vars, st.params) == Some(false),
    ensures
        while_rel(st, cond, body, fuel, Ok::<(StateV, FlowV), ErrV>((st, FlowV::Done))),
{
}

/// `while` intercepts a break: when a pass of the body ends in a break, the
/// loop stops cleanly, the message is discarded, and the body's state
/// changes are kept. A break never escapes its innermost enclosing `while`.
pub proof fn law_while_intercepts_break(
    st: StateV,
    cond: NodeV,
    body: Seq<NodeV>,
    fuel: nat,
    st1: StateV,
    m: Seq<char>,
)
    requires
        spec_is_truthy(cond, st.vars, st.params) == Some(true),
        fuel > 0,
        steps_rel(st, body, 0, (fuel - 1) as nat, Ok::<(StateV, FlowV), ErrV>(
            (st1, FlowV::Break(m)),
        )),
    ensures
        while_rel(st, cond, body, fuel, Ok::<(StateV, FlowV), ErrV>((st1, FlowV::Done))),
{
    let r1: StepRes = Ok((st1, FlowV::Break(m)));
    assert(mid_step(r1));
}

/// `each` intercepts a break identically, and the loop variable keeps the
/// binding from the interrupted iteration.
pub proof fn law_each_intercepts_break(
    st: StateV,
    name: Seq<char>,
    items: Seq<NodeV>,
    from: int,
    body: Seq<NodeV>,
    fuel: nat,
    st1: StateV,
    st2: StateV,
    m: Seq<char>,
)
    requires
        0 <= from < items.len(),
        spec_var_step(st, name, items[from]) == Ok::<StateV, ErrV>(st1),
        fuel > 0,
        steps_rel(st1, body, 0, (fuel - 1) as nat, Ok::<(StateV, FlowV), ErrV>(
            (st2, FlowV::Break(m)),
        )),
    ensures
        each_rel(st, name, items, from, body, fuel, Ok::<(StateV, FlowV), ErrV>(
            (st2, FlowV::Done),
        )),
{
    let r1: StepRes = Ok((st2, FlowV::Break(m)));
    assert(mid_step(r1));
}

/// `call` does not intercept a break: when the procedure's body ends in a
/// break, the call ends in that same break — with the caller's parameters
/// already restored — and it unwinds further, to whatever loop encloses the
/// call site or to the runner.
pub proof fn law_call_passes_break(
    st: StateV,
    name: Seq<char>,
    with_entries: Seq<(NodeV, NodeV)>,
    pairs: Seq<(Seq<char>, NodeV)>,
    body: Seq<NodeV>,
    fuel: nat,
    st2: StateV,
    m: Seq<char>,
)
    requires
        spec_with_pairs(with_entries, st.vars, st.params) == Ok::<
            Seq<(Seq<char>, NodeV)>,
            ErrV,
        >(pairs),
        st.procs.contains_key(name),
        st.procs[name] == NodeV::Array(body),
        fuel > 0,
        steps_rel(
            StateV { params: spec_install(st.params, pairs), ..st },
            body,
            0,
            (fuel - 1) as nat,
            Ok::<(StateV, FlowV), ErrV>((st2, FlowV::Break(m))),
        ),
    ensures
        call_with_rel(st, name, with_entries, fuel, Ok::<(StateV, FlowV), ErrV>(
            (StateV { params: st.params, ..st2 }, FlowV::Break(m)),
        )),
{
    let r1: StepRes = Ok((st2, FlowV::Break(m)));
    assert(mid_step(r1));
}

/// Whatever a call ended with, the caller's parameter set is exactly the
/// one it had before the call.
pub proof fn law_call_restores_params(
    st: StateV,
    name_node: NodeV,
    entries: Seq<(NodeV, NodeV)>,
    fuel: nat,
    st2: StateV,
    f: FlowV,
)
    requires
        call_rel(st, name_node, entries, fuel, Ok::<(StateV, FlowV), ErrV>((st2, f))),
    ensures
        st2.params == st.params,
{
}

/// A parameter shadows a same-named variable for writing too: when a
/// parameter of that name is live, an assignment step lands on it and the
/// global variables are untouched.
pub proof fn law_assign_hits_param(st: StateV, name: Seq<char>, node: NodeV, st2: StateV)
    requires
        st.params.contains_key(name),
        spec_var_step(st, name, node) == Ok::<StateV, ErrV>(st2),
    ensures
        st2.vars == st.vars,
        st2.params.contains_key(name),
{
}

/// A break no loop intercepted is the designed whole-run abort: the runner
/// delivers its message to the output sink and the run ends cleanly,
/// without a status.
pub proof fn law_break_reaches_runner(st: StateV, docs: Seq<NodeV>, st1: StateV, m: Seq<char>)
    requires
        docs_rel(st, docs, 0, Ok::<(StateV, FlowV), ErrV>((st1, FlowV::Break(m)))),
    ensures
        run_rel(st, docs, Ok::<(StateV, Option<i32>), ErrV>(
            (StateV { lines: st1.lines.push(m), ..st1 }, None),
        )),
{
    let r1: StepRes = Ok((st1, FlowV::Break(m)));
    assert(mid_step(r1));
}

/// What `exec` captures, for every outcome the host can produce: standard
/// output exactly when the exit code is `0`, else standard error, one
/// trailing newline stripped in either case.
pub proof fn law_exec_capture(o: OutcomeV)
    ensures
        o.code == Some(0i32) ==> spec_capture(o) == spec_strip_nl(o.out),
        o.code != Some(0i32) ==> spec_capture(o) == spec_strip_nl(o.err),
{
}


/// A string leaf without an interpolation token evaluates to itself,
/// verbatim: literal dollars and braces pass through untouched.
pub proof fn law_no_token_verbatim(
    s: Seq<char>,
    vars: Map<Seq<char>, NodeV>,
    params: Map<Seq<char>, NodeV>,
)
    requires
        crate::expr::spec_find_token(s, 0) is None,
    ensures
        crate::expr::spec_eval_str(s, vars, params) == Some(crate::value::ValueV::Str(s)),
{
}

/// Embedding a value in a leaf node and reading the leaf back yields the
/// value unchanged, tag preserved.
pub proof fn law_value_node_round_trip(v: crate::value::ValueV)
    ensures
        crate::expr::spec_leaf(crate::expr::spec_value_node(v)) == Some(v),
{
}

} // verus!
