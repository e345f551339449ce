//! The `while` step: re-evaluate the condition before each pass of the
//! body. A break raised in the body is intercepted here — it never escapes
//! its innermost enclosing `while` — and its message is discarded.

use vstd::prelude::*;

use crate::binding::Binding;
use crate::flow::{Error, Flow};
use crate::host::Host;
use crate::node::{seq_v, Node};
use crate::script::Script;
use crate::semantics::{mid_step, res_of, while_arm, while_rel, StepRes};

verus! {

/// Extracts the `do:` list and runs the loop.
pub fn run<H: Host>(
    s: &mut Script,
    host: &mut H,
    cond: &Node,
    step: &Vec<(Node, Node)>,
    fuel: u64,
) -> (r: Result<Flow, Error>)
    requires
        old(s).wf(),
    ensures
        final(s).wf(),
        while_arm(old(s)@, cond@, crate::node::entries_v(step@), fuel as nat, res_of(final(s)@, r)),
    decreases fuel, 1int, 1int,
{
    match Binding::entry_to_list(step, "do") {
        Err(e) => Err(e),
        Ok(body) => run_steps(s, host, cond, &body, fuel),
    }
}

/// The loop itself: while the condition evaluates truthy, run the body;
/// stop cleanly on a break from the body, pass an exit through.
pub fn run_steps<H: Host>(
    s: &mut Script,
    host: &mut H,
    cond: &Node,
    body: &Vec<Node>,
    fuel: u64,
) -> (r: Result<Flow, Error>)
    requires
        old(s).wf(),
    ensures
        final(s).wf(),
        while_rel(old(s)@, cond@, seq_v(body@), fuel as nat, res_of(final(s)@, r)),
    decreases fuel, 1int, 0int,
{
    let ghost st0 = old(s)@;
    let ghost condv = cond@;
    let ghost bodyv = seq_v(body@);
    let mut fl = fuel;
    loop
        invariant
            s.wf(),
            fl <= fuel,
            st0 == old(s)@,
            condv == cond@,
            bodyv == seq_v(body@),
            forall|res: StepRes|
                #[trigger] while_rel(s@, condv, bodyv, fl as nat, res) ==> while_rel(
                    st0,
                    condv,
                    bodyv,
                    fuel as nat,
                    res,
                ),
        decreases fl,
    {
        let t = match s.binding.is_truthy(cond) {
            None => {
                proof {
                    assert(while_rel(s@, condv, bodyv, fl as nat, res_of(s@, Err::<Flow, Error>(
                        Error::Expr,
                    ))));
                }
                return Err(Error::Expr);
            },
            Some(t) => t,
        };
        if !t {
            proof {
                assert(while_rel(s@, condv, bodyv, fl as nat, res_of(s@, Ok::<Flow, Error>(
                    Flow::Done,
                ))));
            }
            return Ok(Flow::Done);
        }
        if fl == 0 {
            proof {
                assert(while_rel(s@, condv, bodyv, fl as nat, res_of(s@, Err::<Flow, Error>(
                    Error::Depth,
                ))));
            }
            return Err(Error::Depth);
        }
        let ghost pre = s@;
        let r = s.run_steps_fuel(host, body, fl - 1);
        let ghost r1 = res_of(s@, r);
        proof {
            assert(mid_step(r1));
        }
        match r {
            Ok(Flow::Done) => {
                proof {
                    let ghost b = s@;
                    assert forall|res: StepRes|
                        #[trigger] while_rel(b, condv, bodyv, (fl - 1) as nat, res) implies
                        while_rel(st0, condv, bodyv, fuel as nat, res) by {
                        assert(while_rel(pre, condv, bodyv, fl as nat, res));
                    }
                }
                fl = fl - 1;
            },
            Ok(Flow::Break(_)) => {
                proof {
                    assert(while_rel(pre, condv, bodyv, fl as nat, res_of(s@, Ok::<Flow, Error>(
                        Flow::Done,
                    ))));
                }
                return Ok(Flow::Done);
            },
            Ok(Flow::Exit(c)) => {
                proof {
                    assert(while_rel(pre, condv, bodyv, fl as nat, res_of(s@, Ok::<Flow, Error>(
                        Flow::Exit(c),
                    ))));
                }
                return Ok(Flow::Exit(c));
            },
            Err(e) => {
                proof {
                    assert(while_rel(pre, condv, bodyv, fl as nat, res_of(s@, Err::<Flow, Error>(
                        e,
                    ))));
                }
                return Err(e);
            },
        }
    }
}

} // verus!
