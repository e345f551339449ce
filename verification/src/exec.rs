//! The `exec` step: evaluate the command line, hand it to the host, and
//! assign what the command printed to a variable.

use vstd::prelude::*;

use crate::flow::{Error, Flow};
use crate::host::{ExecOutcome, Host};
use crate::node::{hash_get, Node};
use crate::script::Script;
use crate::semantics::{exec_arm, mid_resp, res_of, spec_capture, spec_exec_after, spec_strip_nl};
use crate::var;

verus! {

/// Evaluates the command string, runs it through the host, and assigns the
/// captured text to the `as` variable (default `_`) by an ordinary
/// variable-assignment step. A spawn failure aborts the run; it is never a
/// break.
pub fn run<H: Host>(
    s: &mut Script,
    host: &mut H,
    expr: &Node,
    step: &Vec<(Node, Node)>,
) -> (r: Result<Flow, Error>)
    requires
        old(s).wf(),
    ensures
        final(s).wf(),
        exec_arm(old(s)@, expr@, crate::node::entries_v(step@), res_of(final(s)@, r)),
        // a history-tracking host was asked to run exactly the evaluated
        // command line, and nothing else
        old(host).tracks_history() ==> final(host).tracks_history() && (match crate::expr::spec_eval(
            expr@,
            old(s)@.vars,
            old(s)@.params,
        ) {
            Some(val) => final(host).history() == old(host).history().push(
                crate::expr::spec_to_string(val),
            ),
            None => final(host).history() == old(host).history(),
        }),
{
    let cmd = match s.binding.eval_to_string(expr) {
        None => {
            return Err(Error::Expr);
        },
        Some(c) => c,
    };
    let resp = host.run_command(&cmd);
    let ghost respv = (match resp {
        Ok(ref o) => Ok::<crate::host::OutcomeV, Seq<char>>(o@),
        Err(ref m) => Err::<crate::host::OutcomeV, Seq<char>>(m@),
    });
    proof {
        assert(mid_resp(respv));
    }
    match resp {
        Err(m) => Err(Error::Spawn(m)),
        Ok(out) => {
            let target = match hash_get(step, "as") {
                None => String::from_str("_"),
                Some(n) => match n {
                    Node::Str(a) => a.clone(),
                    _ => {
                        let e = Error::Malformed(String::from_str("expected string"));
                        proof {
                            assert(spec_exec_after(
                                old(s)@,
                                crate::node::entries_v(step@),
                                respv,
                                res_of(old(s)@, Err::<Flow, Error>(e)),
                            ));
                        }
                        return Err(e);
                    },
                },
            };
            let text = capture(&out);
            var::run(s, target.as_str(), &Node::Str(text))
        },
    }
}

/// What an `exec` step keeps of a command outcome: standard output when the
/// exit code is exactly `0`, else standard error, one trailing newline
/// stripped. Verified for every outcome the host can hand back.
pub fn capture(out: &ExecOutcome) -> (r: String)
    ensures
        r@ == spec_capture(out@),
{
    let zero = match out.code {
        Some(c) => c == 0,
        None => false,
    };
    if zero {
        strip_nl(&out.stdout)
    } else {
        strip_nl(&out.stderr)
    }
}

/// Removes one trailing newline, if any.
fn strip_nl(s: &String) -> (r: String)
    ensures
        r@ == spec_strip_nl(s@),
{
    let t = s.as_str();
    let n = t.unicode_len();
    if n > 0 && t.get_char(n - 1) == '\n' {
        let cut = t.substring_char(0, n - 1);
        proof {
            assert(cut@ =~= s@.drop_last());
        }
        cut.to_owned()
    } else {
        s.clone()
    }
}

} // verus!
