//! The small-step semantics of script execution.
//!
//! Each relation holds between a pre-state, a piece of script, and an
//! outcome: the post-state with the control-flow result, or an error. The
//! relations are functional everywhere except at the process boundary, where
//! the host's answer to an `exec` command is existentially quantified: an
//! interpreter run is deterministic relative to what the host answered.
//!
//! `fuel` is a nesting budget: every descent into a nested step sequence and
//! every loop iteration costs one unit. The budget only bounds depth, it is
//! not a step count; the engine runs with a budget beyond any practical
//! script, and a run that exhausts it ends in a `Depth` error.

use vstd::prelude::*;

use crate::binding::{spec_install, spec_is_truthy, spec_set_var, spec_with_pairs};
use crate::expr;
use crate::flow::{ErrV, FlowV};
use crate::host::OutcomeV;
use crate::node::{spec_hash_get, NodeV};

verus! {

/// The nesting budget the engine runs with.
pub const DEFAULT_FUEL: u64 = 0xFFFF_FFFF_FFFF_FFFF;

/// Mathematical view of the whole interpreter state: the three binding
/// tables and the lines written so far.
pub struct StateV {
    pub vars: Map<Seq<char>, NodeV>,
    pub params: Map<Seq<char>, NodeV>,
    pub procs: Map<Seq<char>, NodeV>,
    pub lines: Seq<Seq<char>>,
}

/// What a step or sequence ended with: a post-state and a flow, or an error.
/// On an error the post-state is not constrained; the run aborts.
pub type StepRes = Result<(StateV, FlowV), ErrV>;

/// Trigger marker for the host responses that the `exec` relation
/// quantifies over; always true.
pub open spec fn mid_resp(resp: Result<OutcomeV, Seq<char>>) -> bool {
    true
}


/// Trigger marker for intermediate step results; always true.
pub open spec fn mid_step(r: StepRes) -> bool {
    true
}

/// The outcome a handler's return value and final state denote.
pub open spec fn res_of(st: StateV, r: Result<crate::flow::Flow, crate::flow::Error>) -> StepRes {
    match r {
        Ok(f) => Ok((st, f@)),
        Err(e) => Err(e@),
    }
}

/// The outcome a whole run's return value and final state denote.
pub open spec fn run_res_of(
    st: StateV,
    r: Result<Option<i32>, crate::flow::Error>,
) -> Result<(StateV, Option<i32>), ErrV> {
    match r {
        Ok(c) => Ok((st, c)),
        Err(e) => Err(e@),
    }
}

/// Lifts a state-or-error outcome to a step outcome that continues.
pub open spec fn lift_rel(o: Result<StateV, ErrV>, res: StepRes) -> bool {
    match o {
        Ok(st2) => res == Ok::<(StateV, FlowV), ErrV>((st2, FlowV::Done)),
        Err(e) => res == Err::<(StateV, FlowV), ErrV>(e),
    }
}

/// A variable-assignment step: evaluate the node, then write shadow-aware.
pub open spec fn spec_var_step(st: StateV, name: Seq<char>, node: NodeV) -> Result<StateV, ErrV> {
    match expr::spec_eval(node, st.vars, st.params) {
        None => Err(ErrV::Expr),
        Some(v) => {
            let (vars2, params2) = spec_set_var(st.vars, st.params, name, expr::spec_value_node(v));
            Ok(StateV { vars: vars2, params: params2, ..st })
        },
    }
}

/// An `echo` step: evaluate to text, write one line.
pub open spec fn spec_echo_step(st: StateV, node: NodeV) -> Result<StateV, ErrV> {
    match expr::spec_eval(node, st.vars, st.params) {
        None => Err(ErrV::Expr),
        Some(v) => Ok(StateV { lines: st.lines.push(expr::spec_to_string(v)), ..st }),
    }
}

/// The message a `break` step raises: the `message` entry when present (it
/// must be a string), else `(break)`.
pub open spec fn spec_break_message(entries: Seq<(NodeV, NodeV)>) -> Result<Seq<char>, ErrV> {
    match spec_hash_get(entries, "message"@) {
        None => Ok("(break)"@),
        Some(NodeV::Str(m)) => Ok(m),
        Some(_) => Err(ErrV::Malformed("expected string"@)),
    }
}

/// The list under `key`, as `entry_to_list` finds it.
pub open spec fn spec_entry_list(entries: Seq<(NodeV, NodeV)>, key: Seq<char>) -> Result<
    Seq<NodeV>,
    ErrV,
> {
    match spec_hash_get(entries, key) {
        None => Err(ErrV::Malformed("missing entry"@)),
        Some(NodeV::Array(items)) => Ok(items),
        Some(_) => Err(ErrV::Malformed("expected list"@)),
    }
}

/// The target variable of an `exec` step: the `as` entry when present (a
/// string), else `_`.
pub open spec fn spec_exec_as(entries: Seq<(NodeV, NodeV)>) -> Result<Seq<char>, ErrV> {
    match spec_hash_get(entries, "as"@) {
        None => Ok("_"@),
        Some(NodeV::Str(a)) => Ok(a),
        Some(_) => Err(ErrV::Malformed("expected string"@)),
    }
}

/// One trailing newline stripped.
pub open spec fn spec_strip_nl(s: Seq<char>) -> Seq<char> {
    if s.len() > 0 && s.last() == '\n' {
        s.drop_last()
    } else {
        s
    }
}

/// What an `exec` step captures from a command outcome: standard output
/// when the exit code is exactly zero, else standard error, with one
/// trailing newline stripped.
pub open spec fn spec_capture(o: OutcomeV) -> Seq<char> {
    if o.code == Some(0i32) {
        spec_strip_nl(o.out)
    } else {
        spec_strip_nl(o.err)
    }
}

/// How an `exec` step finishes once the host answered `resp`: a spawn
/// failure aborts; otherwise the captured text is assigned to the target
/// variable through an ordinary variable-assignment step.
pub open spec fn spec_exec_after(
    st: StateV,
    entries: Seq<(NodeV, NodeV)>,
    resp: Result<OutcomeV, Seq<char>>,
    res: StepRes,
) -> bool {
    match resp {
        Err(m) => res == Err::<(StateV, FlowV), ErrV>(ErrV::Spawn(m)),
        Ok(o) => match spec_exec_as(entries) {
            Err(e) => res == Err::<(StateV, FlowV), ErrV>(e),
            Ok(name) => match spec_var_step(st, name, NodeV::Str(spec_capture(o))) {
                Err(e) => res == Err::<(StateV, FlowV), ErrV>(e),
                Ok(st2) => res == Ok::<(StateV, FlowV), ErrV>((st2, FlowV::Done)),
            },
        },
    }
}

/// An `exit` step: evaluate to an integer status; an integer out of 32-bit
/// range becomes `0`.
pub open spec fn spec_exit_step(st: StateV, node: NodeV, res: StepRes) -> bool {
    match expr::spec_eval(node, st.vars, st.params) {
        None => res == Err::<(StateV, FlowV), ErrV>(ErrV::Expr),
        Some(v) => match v {
            crate::value::ValueV::Int(x) => res == Ok::<(StateV, FlowV), ErrV>(
                (st, FlowV::Exit(if i32::MIN <= x <= i32::MAX {
                    x as i32
                } else {
                    0i32
                })),
            ),
            _ => res == Err::<(StateV, FlowV), ErrV>(ErrV::NoNumber),
        },
    }
}

/// The `break` arm: raise when the condition is truthy, with the record's
/// message.
pub open spec fn break_arm(st: StateV, v: NodeV, entries: Seq<(NodeV, NodeV)>, res: StepRes) -> bool {
    match spec_is_truthy(v, st.vars, st.params) {
        None => res == Err::<(StateV, FlowV), ErrV>(ErrV::Expr),
        Some(false) => res == Ok::<(StateV, FlowV), ErrV>((st, FlowV::Done)),
        Some(true) => match spec_break_message(entries) {
            Err(e) => res == Err::<(StateV, FlowV), ErrV>(e),
            Ok(m) => res == Ok::<(StateV, FlowV), ErrV>((st, FlowV::Break(m))),
        },
    }
}

/// The `def` arm: register the `do:` list under the name, verbatim.
pub open spec fn def_arm(st: StateV, v: NodeV, entries: Seq<(NodeV, NodeV)>, res: StepRes) -> bool {
    match v {
        NodeV::Str(name) => match spec_entry_list(entries, "do"@) {
            Err(e) => res == Err::<(StateV, FlowV), ErrV>(e),
            Ok(body) => res == Ok::<(StateV, FlowV), ErrV>(
                (StateV { procs: st.procs.insert(name, NodeV::Array(body)), ..st }, FlowV::Done),
            ),
        },
        _ => res == Err::<(StateV, FlowV), ErrV>(ErrV::Malformed("expected string"@)),
    }
}

/// The `each` arm: a string loop variable, an `in:` list, a `do:` list.
pub open spec fn each_arm(
    st: StateV,
    v: NodeV,
    entries: Seq<(NodeV, NodeV)>,
    fuel: nat,
    res: StepRes,
) -> bool
    decreases fuel, 1int, 1int,
{
    match v {
        NodeV::Str(name) => match spec_entry_list(entries, "in"@) {
            Err(e) => res == Err::<(StateV, FlowV), ErrV>(e),
            Ok(items) => match spec_entry_list(entries, "do"@) {
                Err(e) => res == Err::<(StateV, FlowV), ErrV>(e),
                Ok(body) => each_rel(st, name, items, 0, body, fuel, res),
            },
        },
        _ => res == Err::<(StateV, FlowV), ErrV>(ErrV::Malformed("expected string"@)),
    }
}

/// The `exec` arm: the command must evaluate; what the host answers is
/// unconstrained, and `spec_exec_after` says how each answer finishes.
pub open spec fn exec_arm(
    st: StateV,
    v: NodeV,
    entries: Seq<(NodeV, NodeV)>,
    res: StepRes,
) -> bool {
    match expr::spec_eval(v, st.vars, st.params) {
        None => res == Err::<(StateV, FlowV), ErrV>(ErrV::Expr),
        Some(_) => exists|resp: Result<OutcomeV, Seq<char>>|
            #[trigger] mid_resp(resp) && spec_exec_after(st, entries, resp, res),
    }
}

/// The `if` arm: choose `then:` or `else:` by the condition, once; a
/// missing branch is an error, not a no-op.
pub open spec fn if_arm(
    st: StateV,
    v: NodeV,
    entries: Seq<(NodeV, NodeV)>,
    fuel: nat,
    res: StepRes,
) -> bool
    decreases fuel, 1int, 1int,
{
    match spec_is_truthy(v, st.vars, st.params) {
        None => res == Err::<(StateV, FlowV), ErrV>(ErrV::Expr),
        Some(t) => match spec_entry_list(entries, if t {
            "then"@
        } else {
            "else"@
        }) {
            Err(e) => res == Err::<(StateV, FlowV), ErrV>(e),
            Ok(branch) => if fuel == 0 {
                res == Err::<(StateV, FlowV), ErrV>(ErrV::Depth)
            } else {
                steps_rel(st, branch, 0, (fuel - 1) as nat, res)
            },
        },
    }
}

/// The `while` arm: a `do:` list run by `while_rel`.
pub open spec fn while_arm(
    st: StateV,
    v: NodeV,
    entries: Seq<(NodeV, NodeV)>,
    fuel: nat,
    res: StepRes,
) -> bool
    decreases fuel, 1int, 1int,
{
    match spec_entry_list(entries, "do"@) {
        Err(e) => res == Err::<(StateV, FlowV), ErrV>(e),
        Ok(body) => while_rel(st, v, body, fuel, res),
    }
}

/// The variable-assignment arm, for every unrecognized key.
pub open spec fn var_arm(st: StateV, key: Seq<char>, v: NodeV, res: StepRes) -> bool {
    lift_rel(spec_var_step(st, key, v), res)
}

/// The `echo` arm.
pub open spec fn echo_arm(st: StateV, v: NodeV, res: StepRes) -> bool {
    lift_rel(spec_echo_step(st, v), res)
}

/// One step: dispatch on the record's first key. Unrecognized keys assign a
/// variable; an empty record or a non-string key is malformed.
pub open spec fn step_rel(st: StateV, entries: Seq<(NodeV, NodeV)>, fuel: nat, res: StepRes) -> bool
    decreases fuel, 2int, 0int,
{
    if entries.len() == 0 {
        res == Err::<(StateV, FlowV), ErrV>(ErrV::Malformed("empty step"@))
    } else {
        match entries[0].0 {
            NodeV::Str(key) => {
                let v = entries[0].1;
                if key == "break"@ {
                    break_arm(st, v, entries, res)
                } else if key == "call"@ {
                    call_rel(st, v, entries, fuel, res)
                } else if key == "def"@ {
                    def_arm(st, v, entries, res)
                } else if key == "each"@ {
                    each_arm(st, v, entries, fuel, res)
                } else if key == "echo"@ {
                    echo_arm(st, v, res)
                } else if key == "exec"@ {
                    exec_arm(st, v, entries, res)
                } else if key == "exit"@ {
                    spec_exit_step(st, v, res)
                } else if key == "if"@ {
                    if_arm(st, v, entries, fuel, res)
                } else if key == "while"@ {
                    while_arm(st, v, entries, fuel, res)
                } else {
                    var_arm(st, key, v, res)
                }
            },
            _ => res == Err::<(StateV, FlowV), ErrV>(ErrV::Malformed("expected string key"@)),
        }
    }
}

/// A `call` step: evaluate the `with:` entries in the caller's scope and
/// install them over the caller's parameters, run the named procedure's
/// body, and restore the saved parameters whatever the body ended with.
/// `call` never intercepts a break or an exit.
pub open spec fn call_rel(
    st: StateV,
    name_node: NodeV,
    entries: Seq<(NodeV, NodeV)>,
    fuel: nat,
    res: StepRes,
) -> bool
    decreases fuel, 1int, 0int,
{
    match name_node {
        NodeV::Str(name) => {
            let w = spec_hash_get(entries, "with"@);
            match w {
                Some(NodeV::Hash(h)) => call_with_rel(st, name, h, fuel, res),
                None => call_with_rel(st, name, Seq::empty(), fuel, res),
                Some(_) => res == Err::<(StateV, FlowV), ErrV>(
                    ErrV::Malformed("expected mapping"@),
                ),
            }
        },
        _ => res == Err::<(StateV, FlowV), ErrV>(ErrV::Malformed("expected string"@)),
    }
}

/// The body of `call_rel` once the `with:` entries are in hand.
pub open spec fn call_with_rel(
    st: StateV,
    name: Seq<char>,
    with_entries: Seq<(NodeV, NodeV)>,
    fuel: nat,
    res: StepRes,
) -> bool
    decreases fuel, 0int, 0int,
{
    match spec_with_pairs(with_entries, st.vars, st.params) {
        Err(e) => res == Err::<(StateV, FlowV), ErrV>(e),
        Ok(pairs) => {
            let pushed = StateV { params: spec_install(st.params, pairs), ..st };
            if !st.procs.contains_key(name) {
                res == Err::<(StateV, FlowV), ErrV>(ErrV::NoProc(name))
            } else {
                match st.procs[name] {
                    NodeV::Array(body) => if fuel == 0 {
                        res == Err::<(StateV, FlowV), ErrV>(ErrV::Depth)
                    } else {
                        exists|r1: StepRes|
                            #[trigger] mid_step(r1) && steps_rel(
                                pushed,
                                body,
                                0,
                                (fuel - 1) as nat,
                                r1,
                            ) && (match r1 {
                                Ok((st2, f)) => res == Ok::<(StateV, FlowV), ErrV>(
                                    (StateV { params: st.params, ..st2 }, f),
                                ),
                                Err(e) => res == Err::<(StateV, FlowV), ErrV>(e),
                            })
                    },
                    _ => res == Err::<(StateV, FlowV), ErrV>(ErrV::Malformed("expected list"@)),
                }
            }
        },
    }
}

/// A `while` loop: re-evaluate the condition before each pass; a break
/// raised in the body is intercepted here, its message discarded; an exit
/// passes through untouched.
pub open spec fn while_rel(st: StateV, cond: NodeV, body: Seq<NodeV>, fuel: nat, res: StepRes) -> bool
    decreases fuel, 1int, 0int,
{
    match spec_is_truthy(cond, st.vars, st.params) {
        None => res == Err::<(StateV, FlowV), ErrV>(ErrV::Expr),
        Some(false) => res == Ok::<(StateV, FlowV), ErrV>((st, FlowV::Done)),
        Some(true) => if fuel == 0 {
            res == Err::<(StateV, FlowV), ErrV>(ErrV::Depth)
        } else {
            exists|r1: StepRes|
                #[trigger] mid_step(r1) && steps_rel(st, body, 0, (fuel - 1) as nat, r1) && (
                match r1 {
                    Ok((st1, FlowV::Done)) => while_rel(st1, cond, body, (fuel - 1) as nat, res),
                    Ok((st1, FlowV::Break(_))) => res == Ok::<(StateV, FlowV), ErrV>(
                        (st1, FlowV::Done),
                    ),
                    Ok((st1, FlowV::Exit(c))) => res == Ok::<(StateV, FlowV), ErrV>(
                        (st1, FlowV::Exit(c)),
                    ),
                    Err(e) => res == Err::<(StateV, FlowV), ErrV>(e),
                })
        },
    }
}

/// An `each` loop over `items` from index `from` on: bind the loop variable
/// to the element by an ordinary variable-assignment step, run the body;
/// break is intercepted exactly as in `while`, and the loop variable keeps
/// the value from the interrupted iteration.
pub open spec fn each_rel(
    st: StateV,
    name: Seq<char>,
    items: Seq<NodeV>,
    from: int,
    body: Seq<NodeV>,
    fuel: nat,
    res: StepRes,
) -> bool
    decreases fuel, 1int, 0int,
{
    if !(0 <= from <= items.len()) {
        res == Err::<(StateV, FlowV), ErrV>(ErrV::Malformed("bad index"@))
    } else if from == items.len() {
        res == Ok::<(StateV, FlowV), ErrV>((st, FlowV::Done))
    } else {
        match spec_var_step(st, name, items[from]) {
            Err(e) => res == Err::<(StateV, FlowV), ErrV>(e),
            Ok(st1) => if fuel == 0 {
                res == Err::<(StateV, FlowV), ErrV>(ErrV::Depth)
            } else {
                exists|r1: StepRes|
                    #[trigger] mid_step(r1) && steps_rel(st1, body, 0, (fuel - 1) as nat, r1) && (
                    match r1 {
                        Ok((st2, FlowV::Done)) => each_rel(
                            st2,
                            name,
                            items,
                            from + 1,
                            body,
                            (fuel - 1) as nat,
                            res,
                        ),
                        Ok((st2, FlowV::Break(_))) => res == Ok::<(StateV, FlowV), ErrV>(
                            (st2, FlowV::Done),
                        ),
                        Ok((st2, FlowV::Exit(c))) => res == Ok::<(StateV, FlowV), ErrV>(
                            (st2, FlowV::Exit(c)),
                        ),
                        Err(e) => res == Err::<(StateV, FlowV), ErrV>(e),
                    })
            },
        }
    }
}

/// A step sequence from index `from` on: each element must be a one-entry
/// mapping; a flow other than `Done` stops the sequence and propagates.
pub open spec fn steps_rel(
    st: StateV,
    steps: Seq<NodeV>,
    from: int,
    fuel: nat,
    res: StepRes,
) -> bool
    decreases fuel, 3int, steps.len() - from,
{
    if !(0 <= from <= steps.len()) {
        res == Err::<(StateV, FlowV), ErrV>(ErrV::Malformed("bad index"@))
    } else if from == steps.len() {
        res == Ok::<(StateV, FlowV), ErrV>((st, FlowV::Done))
    } else {
        match steps[from] {
            NodeV::Hash(entries) => if fuel == 0 {
                res == Err::<(StateV, FlowV), ErrV>(ErrV::Depth)
            } else {
                exists|r1: StepRes|
                    #[trigger] mid_step(r1) && step_rel(st, entries, (fuel - 1) as nat, r1) && (
                    match r1 {
                        Ok((st1, FlowV::Done)) => steps_rel(st1, steps, from + 1, fuel, res),
                        Ok((st1, f)) => res == Ok::<(StateV, FlowV), ErrV>((st1, f)),
                        Err(e) => res == Err::<(StateV, FlowV), ErrV>(e),
                    })
            },
            _ => res == Err::<(StateV, FlowV), ErrV>(ErrV::Malformed("expected mapping"@)),
        }
    }
}

/// A sequence of documents, each a list of steps run with a fresh nesting
/// budget; a flow other than `Done` stops the run and passes out.
pub open spec fn docs_rel(st: StateV, docs: Seq<NodeV>, from: int, res: StepRes) -> bool
    decreases docs.len() - from,
{
    if !(0 <= from <= docs.len()) {
        res == Err::<(StateV, FlowV), ErrV>(ErrV::Malformed("bad index"@))
    } else if from == docs.len() {
        res == Ok::<(StateV, FlowV), ErrV>((st, FlowV::Done))
    } else {
        match docs[from] {
            NodeV::Array(steps) => exists|r1: StepRes|
                #[trigger] mid_step(r1) && steps_rel(st, steps, 0, DEFAULT_FUEL as nat, r1) && (
                match r1 {
                    Ok((st1, FlowV::Done)) => docs_rel(st1, docs, from + 1, res),
                    Ok((st1, f)) => res == Ok::<(StateV, FlowV), ErrV>((st1, f)),
                    Err(e) => res == Err::<(StateV, FlowV), ErrV>(e),
                }),
            _ => res == Err::<(StateV, FlowV), ErrV>(ErrV::Malformed("expected list"@)),
        }
    }
}

/// A whole run: the documents in order; a break that reaches this level is
/// the designed abort: its message goes to the output sink and the run ends
/// cleanly; an exit yields the status for the host to end the process with.
pub open spec fn run_rel(
    st: StateV,
    docs: Seq<NodeV>,
    res: Result<(StateV, Option<i32>), ErrV>,
) -> bool {
    exists|r1: StepRes|
        #[trigger] mid_step(r1) && docs_rel(st, docs, 0, r1) && (match r1 {
            Ok((st1, FlowV::Done)) => res == Ok::<(StateV, Option<i32>), ErrV>((st1, None)),
            Ok((st1, FlowV::Break(m))) => res == Ok::<(StateV, Option<i32>), ErrV>(
                (StateV { lines: st1.lines.push(m), ..st1 }, None),
            ),
            Ok((st1, FlowV::Exit(c))) => res == Ok::<(StateV, Option<i32>), ErrV>(
                (st1, Some(c)),
            ),
            Err(e) => res == Err::<(StateV, Option<i32>), ErrV>(e),
        })
}

} // verus!
