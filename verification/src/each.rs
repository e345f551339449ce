//! The `each` step: bind the loop variable to each list element in turn and
//! run the body. A break is intercepted exactly as in `while`, and the loop
//! variable keeps the value from the interrupted iteration.

use vstd::prelude::*;

use crate::binding::Binding;
use crate::flow::{Error, Flow};
use crate::host::Host;
use crate::node::{node_v, seq_v, Node};
use crate::script::Script;
use crate::semantics::{each_arm, each_rel, mid_step, res_of, spec_var_step, steps_rel, StateV, StepRes};

verus! {

/// Extracts the loop variable, the `in:` list and the `do:` list, and runs
/// the loop.
pub fn run<H: Host>(
    s: &mut Script,
    host: &mut H,
    name: &Node,
    step: &Vec<(Node, Node)>,
    fuel: u64,
) -> (r: Result<Flow, Error>)
    requires
        old(s).wf(),
    ensures
        final(s).wf(),
        each_arm(old(s)@, name@, crate::node::entries_v(step@), fuel as nat, res_of(final(s)@, r)),
    decreases fuel, 1int, 1int,
{
    let name_s = match name {
        Node::Str(t) => t,
        _ => {
            return Err(Error::Malformed(String::from_str("expected string")));
        },
    };
    let items = match Binding::entry_to_list(step, "in") {
        Err(e) => {
            return Err(e);
        },
        Ok(v) => v,
    };
    let body = match Binding::entry_to_list(step, "do") {
        Err(e) => {
            return Err(e);
        },
        Ok(v) => v,
    };
    run_steps(s, host, name_s.as_str(), &items, &body, fuel)
}

/// The loop itself: assign the element, run the body, next element.
pub fn run_steps<H: Host>(
    s: &mut Script,
    host: &mut H,
    name: &str,
    items: &Vec<Node>,
    body: &Vec<Node>,
    fuel: u64,
) -> (r: Result<Flow, Error>)
    requires
        old(s).wf(),
    ensures
        final(s).wf(),
        each_rel(
            old(s)@,
            name@,
            seq_v(items@),
            0,
            seq_v(body@),
            fuel as nat,
            res_of(final(s)@, r),
        ),
    decreases fuel, 1int, 0int,
{
    let ghost st0 = old(s)@;
    let ghost namev = name@;
    let ghost itemsv = seq_v(items@);
    let ghost bodyv = seq_v(body@);
    proof {
        crate::node::lemma_seq_v(items@);
    }
    let mut fl = fuel;
    let mut idx: usize = 0;
    loop
        invariant
            s.wf(),
            fl <= fuel,
            st0 == old(s)@,
            idx <= items@.len(),
            namev == name@,
            itemsv == seq_v(items@),
            bodyv == seq_v(body@),
            itemsv.len() == items@.len(),
            forall|j: int| 0 <= j < items@.len() ==> itemsv[j] == node_v(#[trigger] items@[j]),
            forall|res: StepRes|
                #[trigger] each_rel(s@, namev, itemsv, idx as int, bodyv, fl as nat, res)
                    ==> each_rel(st0, namev, itemsv, 0, bodyv, fuel as nat, res),
        decreases fl,
    {
        if idx == items.len() {
            proof {
                assert(each_rel(s@, namev, itemsv, idx as int, bodyv, fl as nat, res_of(s@, Ok::<
                    Flow,
                    Error,
                >(Flow::Done))));
            }
            return Ok(Flow::Done);
        }
        let ghost pre = s@;
        let rv = crate::var::run(s, name, &items[idx]);
        match rv {
            Err(e) => {
                proof {
                    assert(each_rel(pre, namev, itemsv, idx as int, bodyv, fl as nat, res_of(s@,
                        Err::<Flow, Error>(e))));
                }
                return Err(e);
            },
            Ok(_) => {},
        }
        if fl == 0 {
            proof {
                assert(each_rel(pre, namev, itemsv, idx as int, bodyv, fl as nat, res_of(s@, Err::<
                    Flow,
                    Error,
                >(Error::Depth))));
            }
            return Err(Error::Depth);
        }
        let ghost mid = s@;
        let r = s.run_steps_fuel(host, body, fl - 1);
        let ghost r1 = res_of(s@, r);
        proof {
            assert(mid_step(r1));
        }
        match r {
            Ok(Flow::Done) => {
                let ghost b = s@;
                let ghost fl0 = fl;
                let ghost idx0 = idx;
                fl = fl - 1;
                idx += 1;
                proof {
                    assert forall|res: StepRes|
                        #[trigger] each_rel(s@, namev, itemsv, idx as int, bodyv, fl as nat, res)
                        implies each_rel(st0, namev, itemsv, 0, bodyv, fuel as nat, res) by {
                        assert(idx as int == idx0 as int + 1);
                        assert(fl as nat == (fl0 - 1) as nat);
                        assert(spec_var_step(pre, namev, itemsv[idx0 as int]) == Ok::<
                            StateV,
                            crate::flow::ErrV,
                        >(mid));
                        assert(steps_rel(mid, bodyv, 0, (fl0 - 1) as nat, r1));
                        assert(each_rel(b, namev, itemsv, idx0 as int + 1, bodyv, (fl0 - 1) as nat, res));
                        assert(each_rel(pre, namev, itemsv, idx0 as int, bodyv, fl0 as nat, res));
                    }
                }
            },
            Ok(Flow::Break(_)) => {
                proof {
                    assert(each_rel(pre, namev, itemsv, idx as int, bodyv, fl as nat, res_of(s@,
                        Ok::<Flow, Error>(Flow::Done))));
                }
                return Ok(Flow::Done);
            },
            Ok(Flow::Exit(c)) => {
                proof {
                    assert(each_rel(pre, namev, itemsv, idx as int, bodyv, fl as nat, res_of(s@,
                        Ok::<Flow, Error>(Flow::Exit(c)))));
                }
                return Ok(Flow::Exit(c));
            },
            Err(e) => {
                proof {
                    assert(each_rel(pre, namev, itemsv, idx as int, bodyv, fl as nat, res_of(s@,
                        Err::<Flow, Error>(e))));
                }
                return Err(e);
            },
        }
    }
}

} // verus!
