//! The script runner.
//!
//! A `Script` owns the binding environment and the output sink, and runs
//! documents — lists of step records — through the step dispatcher. Every
//! run function is proved against the relations in `semantics`.

use vstd::prelude::*;

use crate::binding::Binding;
use crate::flow::{Error, Flow};
use crate::host::Host;
use crate::node::{node_v, seq_v, Node, NodeV};
use crate::semantics::{
    docs_rel, mid_step, res_of, run_rel, run_res_of, steps_rel, StateV, StepRes, DEFAULT_FUEL,
};
use crate::step;
use crate::writer::Writer;

verus! {

/// A running script: its source path, its environment, its output sink.
pub struct Script {
    /// Where the document text came from; the host reads and parses it.
    pub path: String,
    /// The variable/parameter/procedure environment.
    pub binding: Binding,
    /// The output sink.
    pub writer: Writer,
}

impl View for Script {
    type V = StateV;

    open spec fn view(&self) -> StateV {
        StateV {
            vars: self.binding.vars@,
            params: self.binding.params@,
            procs: self.binding.procs@,
            lines: self.writer.lines@,
        }
    }
}

impl Script {
    /// Environment and sink well-formed.
    pub open spec fn wf(&self) -> bool {
        self.binding.wf() && self.writer.wf()
    }

    /// A fresh script for the document at `path`; with `Some` log the output
    /// is recorded there, with `None` it is printed.
    pub fn new(path: String, log: Option<Vec<String>>) -> (r: Script)
        ensures
            r.wf(),
            r@.vars == Map::<Seq<char>, NodeV>::empty(),
            r@.params == Map::<Seq<char>, NodeV>::empty(),
            r@.procs == Map::<Seq<char>, NodeV>::empty(),
            match log {
                Some(v) => r@.lines == v.deep_view(),
                None => r@.lines == Seq::<Seq<char>>::empty(),
            },
    {
        Script { path, binding: Binding::new(), writer: Writer::new(log) }
    }

    /// Runs one step sequence under a given nesting budget.
    pub fn run_steps_fuel<H: Host>(
        &mut self,
        host: &mut H,
        steps: &Vec<Node>,
        fuel: u64,
    ) -> (r: Result<Flow, Error>)
        requires
            old(self).wf(),
        ensures
            final(self).wf(),
            steps_rel(old(self)@, seq_v(steps@), 0, fuel as nat, res_of(final(self)@, r)),
        decreases fuel, 3int, 0int,
    {
        let ghost st0 = self@;
        let ghost stepsv = seq_v(steps@);
        proof {
            crate::node::lemma_seq_v(steps@);
        }
        let mut i: usize = 0;
        loop
            invariant
                i <= steps@.len(),
                self.wf(),
                st0 == old(self)@,
                stepsv == seq_v(steps@),
                stepsv.len() == steps@.len(),
                forall|j: int| 0 <= j < steps@.len() ==> stepsv[j] == node_v(#[trigger] steps@[j]),
                forall|res: StepRes|
                    #[trigger] steps_rel(self@, stepsv, i as int, fuel as nat, res) ==> steps_rel(
                        st0,
                        stepsv,
                        0,
                        fuel as nat,
                        res,
                    ),
            decreases steps@.len() - i,
        {
            if i == steps.len() {
                proof {
                    assert(steps_rel(
                        self@,
                        stepsv,
                        i as int,
                        fuel as nat,
                        Ok::<(StateV, crate::flow::FlowV), crate::flow::ErrV>(
                            (self@, crate::flow::FlowV::Done),
                        ),
                    ));
                }
                return Ok(Flow::Done);
            }
            let entries = match &steps[i] {
                Node::Hash(entries) => entries,
                _ => {
                    let e = Error::Malformed(String::from_str("expected mapping"));
                    proof {
                        assert(steps_rel(self@, stepsv, i as int, fuel as nat, res_of(self@, Err::<
                            Flow,
                            Error,
                        >(e))));
                    }
                    return Err(e);
                },
            };
            if fuel == 0 {
                proof {
                    assert(steps_rel(self@, stepsv, i as int, fuel as nat, res_of(self@, Err::<
                        Flow,
                        Error,
                    >(Error::Depth))));
                }
                return Err(Error::Depth);
            }
            let ghost pre = self@;
            let r = step::run(self, host, entries, fuel - 1);
            proof {
                let r1 = res_of(self@, r);
                assert(mid_step(r1));
                match r {
                    Ok(Flow::Done) => {},
                    _ => {
                        assert(steps_rel(pre, stepsv, i as int, fuel as nat, r1));
                    },
                }
            }
            match r {
                Ok(Flow::Done) => {
                    proof {
                        let ghost b = self@;
                        assert forall|res: StepRes|
                            #[trigger] steps_rel(b, stepsv, i + 1, fuel as nat, res) implies
                            steps_rel(st0, stepsv, 0, fuel as nat, res) by {
                            assert(mid_step(
                                Ok::<(StateV, crate::flow::FlowV), crate::flow::ErrV>(
                                    (b, crate::flow::FlowV::Done),
                                ),
                            ));
                            assert(steps_rel(pre, stepsv, i as int, fuel as nat, res));
                        }
                    }
                    i += 1;
                },
                Ok(f) => {
                    return Ok(f);
                },
                Err(e) => {
                    return Err(e);
                },
            }
        }
    }

    /// Runs one step sequence under the default budget.
    pub fn run_steps<H: Host>(&mut self, host: &mut H, steps: &Vec<Node>) -> (r: Result<
        Flow,
        Error,
    >)
        requires
            old(self).wf(),
        ensures
            final(self).wf(),
            steps_rel(
                old(self)@,
                seq_v(steps@),
                0,
                DEFAULT_FUEL as nat,
                res_of(final(self)@, r),
            ),
    {
        self.run_steps_fuel(host, steps, DEFAULT_FUEL)
    }

    /// Runs the documents in order; a break passes out undelivered, for the
    /// caller to report.
    pub fn run_docs<H: Host>(&mut self, host: &mut H, docs: &Vec<Node>) -> (r: Result<Flow, Error>)
        requires
            old(self).wf(),
        ensures
            final(self).wf(),
            docs_rel(old(self)@, seq_v(docs@), 0, res_of(final(self)@, r)),
    {
        let ghost st0 = self@;
        let ghost docsv = seq_v(docs@);
        proof {
            crate::node::lemma_seq_v(docs@);
        }
        let mut d: usize = 0;
        loop
            invariant
                d <= docs@.len(),
                self.wf(),
                st0 == old(self)@,
                docsv == seq_v(docs@),
                docsv.len() == docs@.len(),
                forall|j: int| 0 <= j < docs@.len() ==> docsv[j] == node_v(#[trigger] docs@[j]),
                forall|res: StepRes|
                    #[trigger] docs_rel(self@, docsv, d as int, res) ==> docs_rel(
                        st0,
                        docsv,
                        0,
                        res,
                    ),
            decreases docs@.len() - d,
        {
            if d == docs.len() {
                proof {
                    assert(docs_rel(
                        self@,
                        docsv,
                        d as int,
                        Ok::<(StateV, crate::flow::FlowV), crate::flow::ErrV>(
                            (self@, crate::flow::FlowV::Done),
                        ),
                    ));
                }
                return Ok(Flow::Done);
            }
            let body = match &docs[d] {
                Node::Array(body) => body,
                _ => {
                    let e = Error::Malformed(String::from_str("expected list"));
                    proof {
                        assert(docs_rel(self@, docsv, d as int, res_of(self@, Err::<Flow, Error>(
                            e,
                        ))));
                    }
                    return Err(e);
                },
            };
            let ghost pre = self@;
            let r = self.run_steps_fuel(host, body, DEFAULT_FUEL);
            proof {
                let r1 = res_of(self@, r);
                assert(mid_step(r1));
                match r {
                    Ok(Flow::Done) => {},
                    _ => {
                        assert(docs_rel(pre, docsv, d as int, r1));
                    },
                }
            }
            match r {
                Ok(Flow::Done) => {
                    proof {
                        let ghost b = self@;
                        assert forall|res: StepRes|
                            #[trigger] docs_rel(b, docsv, d + 1, res) implies docs_rel(
                            st0,
                            docsv,
                            0,
                            res,
                        ) by {
                            assert(mid_step(
                                Ok::<(StateV, crate::flow::FlowV), crate::flow::ErrV>(
                                    (b, crate::flow::FlowV::Done),
                                ),
                            ));
                            assert(docs_rel(pre, docsv, d as int, res));
                        }
                    }
                    d += 1;
                },
                Ok(f) => {
                    return Ok(f);
                },
                Err(e) => {
                    return Err(e);
                },
            }
        }
    }

    /// Runs the whole script: a break that reaches this level writes its
    /// message to the sink and the run ends cleanly; an `exit` hands its
    /// status back for the host to end the process with.
    pub fn run<H: Host>(&mut self, host: &mut H, docs: &Vec<Node>) -> (r: Result<
        Option<i32>,
        Error,
    >)
        requires
            old(self).wf(),
        ensures
            final(self).wf(),
            run_rel(old(self)@, seq_v(docs@), run_res_of(final(self)@, r)),
    {
        let ghost st0 = self@;
        let r = self.run_docs(host, docs);
        let ghost r1 = res_of(self@, r);
        proof {
            assert(mid_step(r1));
        }
        match r {
            Ok(Flow::Done) => Ok(None),
            Ok(Flow::Break(m)) => {
                crate::echo::write(self, m);
                Ok(None)
            },
            Ok(Flow::Exit(c)) => Ok(Some(c)),
            Err(e) => Err(e),
        }
    }
}

} // verus!
