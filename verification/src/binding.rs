//! The variable environment.
//!
//! A `Binding` owns the global variables, the call-local parameter overlay,
//! and the procedure table. Parameters shadow same-named variables for both
//! read and write — scoping is dynamic: a called body sees whatever
//! variables and parameters are live at call time.

use vstd::prelude::*;

use crate::expr;
use crate::flow::{ErrV, Error};
use crate::node::{entries_v, node_v, seq_v, Node, NodeV};
use crate::strmap::StrMap;
use crate::value::{spec_truthy, Value, ValueV};

verus! {

/// The interpreter's variable/parameter/procedure environment.
pub struct Binding {
    /// Global variables, alive for the whole run.
    pub vars: StrMap,
    /// Registered procedures.
    pub procs: StrMap,
    /// The parameter overlay of the current call, shadowing variables.
    pub params: StrMap,
}

/// Truthiness of a node under a scope: evaluate, then test; `None` when
/// evaluation fails.
pub open spec fn spec_is_truthy(
    n: NodeV,
    vars: Map<Seq<char>, NodeV>,
    params: Map<Seq<char>, NodeV>,
) -> Option<bool> {
    match expr::spec_eval(n, vars, params) {
        None => None,
        Some(v) => Some(spec_truthy(v)),
    }
}

/// Shadow-aware assignment: the parameter when one of that name is live,
/// else the global variable. Returns the two tables after the write.
pub open spec fn spec_set_var(
    vars: Map<Seq<char>, NodeV>,
    params: Map<Seq<char>, NodeV>,
    name: Seq<char>,
    val: NodeV,
) -> (Map<Seq<char>, NodeV>, Map<Seq<char>, NodeV>) {
    if params.contains_key(name) {
        (vars, params.insert(name, val))
    } else {
        (vars.insert(name, val), params)
    }
}

/// Evaluates the entries of a `with:` mapping against the caller's scope:
/// every key must be a string and every value must evaluate; the result is
/// the name/node pairs to install, in order.
pub open spec fn spec_with_pairs(
    entries: Seq<(NodeV, NodeV)>,
    vars: Map<Seq<char>, NodeV>,
    params: Map<Seq<char>, NodeV>,
) -> Result<Seq<(Seq<char>, NodeV)>, ErrV>
    decreases entries.len(),
{
    if entries.len() == 0 {
        Ok(Seq::empty())
    } else {
        match entries[0].0 {
            NodeV::Str(k) => match expr::spec_eval(entries[0].1, vars, params) {
                None => Err(ErrV::Expr),
                Some(v) => match spec_with_pairs(entries.drop_first(), vars, params) {
                    Err(e) => Err(e),
                    Ok(tail) => Ok(seq![(k, expr::spec_value_node(v))].add(tail)),
                },
            },
            _ => Err(ErrV::Malformed("expected string"@)),
        }
    }
}

/// Installs name/node pairs into a parameter table, in order.
pub open spec fn spec_install(
    params: Map<Seq<char>, NodeV>,
    pairs: Seq<(Seq<char>, NodeV)>,
) -> Map<Seq<char>, NodeV>
    decreases pairs.len(),
{
    if pairs.len() == 0 {
        params
    } else {
        spec_install(params.insert(pairs[0].0, pairs[0].1), pairs.drop_first())
    }
}

impl Binding {
    /// All three tables well-formed.
    pub open spec fn wf(&self) -> bool {
        self.vars.wf() && self.procs.wf() && self.params.wf()
    }

    /// An empty environment.
    pub fn new() -> (r: Binding)
        ensures
            r.wf(),
            r.vars@ == Map::<Seq<char>, NodeV>::empty(),
            r.procs@ == Map::<Seq<char>, NodeV>::empty(),
            r.params@ == Map::<Seq<char>, NodeV>::empty(),
    {
        Binding { vars: StrMap::new(), procs: StrMap::new(), params: StrMap::new() }
    }

    /// The node bound to `name`: the parameter if live, else the variable,
    /// else null.
    pub fn var(&self, name: &str) -> (r: Node)
        requires
            self.wf(),
        ensures
            r@ == (if self.params@.contains_key(name@) {
                self.params@[name@]
            } else if self.vars@.contains_key(name@) {
                self.vars@[name@]
            } else {
                NodeV::Null
            }),
    {
        match self.params.get(name) {
            Some(n) => n.deep_copy(),
            None => match self.vars.get(name) {
                Some(n) => n.deep_copy(),
                None => Node::Null,
            },
        }
    }

    /// Shadow-aware write, exactly `spec_set_var`.
    pub fn set_var(&mut self, name: &str, val: Node)
        requires
            old(self).wf(),
        ensures
            final(self).wf(),
            (final(self).vars@, final(self).params@) == spec_set_var(
                old(self).vars@,
                old(self).params@,
                name@,
                node_v(val),
            ),
            final(self).procs@ == old(self).procs@,
    {
        if self.params.contains(name) {
            self.params.insert(name.to_owned(), val);
        } else {
            self.vars.insert(name.to_owned(), val);
        }
    }

    /// The parameter bound to `name`, or null.
    pub fn param(&self, name: &str) -> (r: Node)
        requires
            self.wf(),
        ensures
            r@ == (if self.params@.contains_key(name@) {
                self.params@[name@]
            } else {
                NodeV::Null
            }),
    {
        match self.params.get(name) {
            Some(n) => n.deep_copy(),
            None => Node::Null,
        }
    }

    /// Binds a parameter.
    pub fn set_param(&mut self, name: &str, val: Node)
        requires
            old(self).wf(),
        ensures
            final(self).wf(),
            final(self).params@ == old(self).params@.insert(name@, node_v(val)),
            final(self).vars@ == old(self).vars@,
            final(self).procs@ == old(self).procs@,
    {
        self.params.insert(name.to_owned(), val);
    }

    /// Pushes the parameters of a `call`: evaluates every `with:` entry
    /// against the current caller scope, then installs them over a copy of
    /// the live parameters; returns the prior parameter table for the
    /// unconditional restore on return.
    pub fn set_params(&mut self, with_entries: &Vec<(Node, Node)>) -> (r: Result<StrMap, Error>)
        requires
            old(self).wf(),
        ensures
            final(self).wf(),
            final(self).vars@ == old(self).vars@,
            final(self).procs@ == old(self).procs@,
            match r {
                Ok(saved) => {
                    &&& saved.wf()
                    &&& saved@ == old(self).params@
                    &&& match spec_with_pairs(
                        entries_v(with_entries@),
                        old(self).vars@,
                        old(self).params@,
                    ) {
                        Ok(pairs) => final(self).params@ == spec_install(old(self).params@, pairs),
                        Err(_) => false,
                    }
                },
                Err(e) => {
                    &&& spec_with_pairs(entries_v(with_entries@), old(self).vars@, old(self).params@)
                        == Err::<Seq<(Seq<char>, NodeV)>, ErrV>(e@)
                    &&& final(self).params@ == old(self).params@
                },
            },
    {
        proof {
            crate::node::lemma_entries_v(with_entries@);
        }
        let ghost ev = entries_v(with_entries@);
        proof {
            assert(ev.subrange(0, ev.len() as int) =~= ev);
            lemma_pairs_v(Seq::<(String, Node)>::empty());
            match spec_with_pairs(ev, old(self).vars@, old(self).params@) {
                Ok(tail) => {
                    assert(Seq::<(Seq<char>, NodeV)>::empty().add(tail) =~= tail);
                },
                Err(_) => {},
            }
            assert(pairs_v(Seq::<(String, Node)>::empty()) =~= Seq::<(Seq<char>, NodeV)>::empty());
        }
        let mut pairs: Vec<(String, Node)> = Vec::new();
        let mut i: usize = 0;
        while i < with_entries.len()
            invariant
                i <= with_entries@.len(),
                self == old(self),
                old(self).wf(),
                ev == entries_v(with_entries@),
                ev.len() == with_entries@.len(),
                forall|j: int|
                    0 <= j < with_entries@.len() ==> ev[j] == (
                    node_v(#[trigger] with_entries@[j].0),
                    node_v(with_entries@[j].1),
                    ),
                pairs@.len() == i,
                spec_with_pairs(ev, old(self).vars@, old(self).params@) == (match spec_with_pairs(
                    ev.subrange(i as int, ev.len() as int),
                    old(self).vars@,
                    old(self).params@,
                ) {
                    Err(e) => Err(e),
                    Ok(tail) => Ok(pairs_v(pairs@).add(tail)),
                }),
            decreases with_entries@.len() - i,
        {
            proof {
                let tail = ev.subrange(i as int, ev.len() as int);
                assert(tail[0] == ev[i as int]);
                assert(tail.drop_first() =~= ev.subrange(i + 1, ev.len() as int));
                lemma_pairs_v(pairs@);
            }
            let key = match &with_entries[i].0 {
                Node::Str(s) => s.clone(),
                _ => {
                    return Err(Error::Malformed(String::from_str("expected string")));
                },
            };
            let val = match expr::eval(&with_entries[i].1, &self.vars, &self.params) {
                Some(v) => expr::value_to_yaml(v),
                None => {
                    return Err(Error::Expr);
                },
            };
            let ghost pairs0 = pairs@;
            pairs.push((key, val));
            proof {
                lemma_pairs_v_push(pairs0, (key, val));
                let pv = (key@, node_v(val));
                let tail1 = ev.subrange(i + 1, ev.len() as int);
                match spec_with_pairs(tail1, old(self).vars@, old(self).params@) {
                    Ok(t2) => {
                        assert(pairs_v(pairs0).push(pv).add(t2) =~= pairs_v(pairs0).add(
                            seq![pv].add(t2),
                        ));
                    },
                    Err(_) => {},
                }
            }
            i += 1;
        }
        proof {
            assert(ev.subrange(ev.len() as int, ev.len() as int)
                =~= Seq::<(NodeV, NodeV)>::empty());
            assert(pairs_v(pairs@).add(Seq::empty()) =~= pairs_v(pairs@));
        }
        let mut fresh = self.params.duplicate();
        proof {
            lemma_pairs_v(pairs@);
            assert(pairs_v(pairs@).subrange(0, pairs_v(pairs@).len() as int) =~= pairs_v(pairs@));
        }
        let mut j: usize = 0;
        while j < pairs.len()
            invariant
                j <= pairs@.len(),
                fresh.wf(),
                spec_install(old(self).params@, pairs_v(pairs@)) == spec_install(
                    fresh@,
                    pairs_v(pairs@).subrange(j as int, pairs_v(pairs@).len() as int),
                ),
                pairs_v(pairs@).len() == pairs@.len(),
                forall|q: int|
                    0 <= q < pairs@.len() ==> pairs_v(pairs@)[q] == (
                    (#[trigger] pairs@[q]).0@,
                    node_v(pairs@[q].1),
                    ),
            decreases pairs@.len() - j,
        {
            proof {
                let rest = pairs_v(pairs@).subrange(j as int, pairs_v(pairs@).len() as int);
                assert(rest[0] == pairs_v(pairs@)[j as int]);
                assert(rest.drop_first() =~= pairs_v(pairs@).subrange(
                    j + 1,
                    pairs_v(pairs@).len() as int,
                ));
            }
            let k = pairs[j].0.clone();
            let v = pairs[j].1.deep_copy();
            fresh.insert(k, v);
            j += 1;
        }
        proof {
            assert(pairs_v(pairs@).subrange(pairs_v(pairs@).len() as int, pairs_v(pairs@).len() as int)
                =~= Seq::<(Seq<char>, NodeV)>::empty());
        }
        let mut saved = fresh;
        core::mem::swap(&mut self.params, &mut saved);
        Ok(saved)
    }

    /// The registered procedure of that name, if any.
    pub fn proc(&self, name: &str) -> (r: Option<Node>)
        requires
            self.wf(),
        ensures
            match r {
                Some(n) => self.procs@.contains_key(name@) && n@ == self.procs@[name@],
                None => !self.procs@.contains_key(name@),
            },
    {
        match self.procs.get(name) {
            Some(n) => Some(n.deep_copy()),
            None => None,
        }
    }

    /// Registers a procedure; redefinition overwrites.
    pub fn set_proc(&mut self, name: &str, val: Node)
        requires
            old(self).wf(),
        ensures
            final(self).wf(),
            final(self).procs@ == old(self).procs@.insert(name@, node_v(val)),
            final(self).vars@ == old(self).vars@,
            final(self).params@ == old(self).params@,
    {
        self.procs.insert(name.to_owned(), val);
    }

    /// Truthiness of a condition node, exactly `spec_is_truthy`.
    pub fn is_truthy(&self, cond: &Node) -> (r: Option<bool>)
        requires
            self.wf(),
        ensures
            r == spec_is_truthy(cond@, self.vars@, self.params@),
    {
        match self.eval(cond) {
            None => None,
            Some(v) => Some(v.is_truthy()),
        }
    }

    /// Evaluates a node against this scope.
    pub fn eval(&self, yaml: &Node) -> (r: Option<Value>)
        requires
            self.wf(),
        ensures
            match r {
                Some(v) => expr::spec_eval(yaml@, self.vars@, self.params@) == Some(v@),
                None => expr::spec_eval(yaml@, self.vars@, self.params@) is None,
            },
    {
        expr::eval(yaml, &self.vars, &self.params)
    }

    /// Evaluates to substitution text.
    pub fn eval_to_string(&self, yaml: &Node) -> (r: Option<String>)
        requires
            self.wf(),
        ensures
            match r {
                Some(t) => match expr::spec_eval(yaml@, self.vars@, self.params@) {
                    Some(v) => t@ == expr::spec_to_string(v),
                    None => false,
                },
                None => expr::spec_eval(yaml@, self.vars@, self.params@) is None,
            },
    {
        match self.eval(yaml) {
            None => None,
            Some(v) => Some(expr::value_to_string(v)),
        }
    }

    /// Evaluates to a 32-bit status: expression failure and non-numbers are
    /// errors; an integer out of the 32-bit range becomes `0`.
    pub fn eval_to_i32(&self, yaml: &Node) -> (r: Result<i32, Error>)
        requires
            self.wf(),
        ensures
            match r {
                Ok(c) => match expr::spec_eval(yaml@, self.vars@, self.params@) {
                    Some(v) => v matches ValueV::Int(x) && c as int == (
                    if i32::MIN <= x <= i32::MAX {
                        x
                    } else {
                        0
                    }),
                    None => false,
                },
                Err(e) => match expr::spec_eval(yaml@, self.vars@, self.params@) {
                    None => e@ is Expr,
                    Some(v) => !(v is Int) && e@ is NoNumber,
                },
            },
    {
        match self.eval(yaml) {
            None => Err(Error::Expr),
            Some(v) => match expr::value_to_i32(&v) {
                Some(c) => Ok(c),
                None => Err(Error::NoNumber),
            },
        }
    }

    /// Evaluates to the leaf node that carries the value.
    pub fn eval_to_yaml(&self, yaml: &Node) -> (r: Option<Node>)
        requires
            self.wf(),
        ensures
            match r {
                Some(n) => match expr::spec_eval(yaml@, self.vars@, self.params@) {
                    Some(v) => n@ == expr::spec_value_node(v),
                    None => false,
                },
                None => expr::spec_eval(yaml@, self.vars@, self.params@) is None,
            },
    {
        match self.eval(yaml) {
            None => None,
            Some(v) => Some(expr::value_to_yaml(v)),
        }
    }

    /// The list under `key` in a step record; an absent key or a non-list
    /// node is a structural error.
    pub fn entry_to_list(hash: &Vec<(Node, Node)>, key: &str) -> (r: Result<Vec<Node>, Error>)
        ensures
            match r {
                Ok(items) => match crate::node::spec_hash_get(entries_v(hash@), key@) {
                    Some(n) => n matches NodeV::Array(its) && seq_v(items@) == its,
                    None => false,
                },
                Err(e) => match crate::node::spec_hash_get(entries_v(hash@), key@) {
                    Some(n) => !(n is Array) && e@ == ErrV::Malformed("expected list"@),
                    None => e@ == ErrV::Malformed("missing entry"@),
                },
            },
    {
        match crate::node::hash_get(hash, key) {
            None => Err(Error::Malformed(String::from_str("missing entry"))),
            Some(n) => match n {
                Node::Array(v) => {
                    let mut out: Vec<Node> = Vec::new();
                    let mut i: usize = 0;
                    while i < v.len()
                        invariant
                            i <= v@.len(),
                            out@.len() == i,
                            forall|j: int| 0 <= j < i ==> out@[j]@ == node_v(#[trigger] v@[j]),
                        decreases v@.len() - i,
                    {
                        out.push(v[i].deep_copy());
                        i += 1;
                    }
                    proof {
                        crate::node::lemma_seq_v(v@);
                        crate::node::lemma_seq_v(out@);
                        assert forall|j: int|
                            0 <= j < v@.len() implies seq_v(out@)[j] == seq_v(v@)[j] by {
                            assert(seq_v(out@)[j] == node_v(out@[j]));
                            assert(seq_v(v@)[j] == node_v(v@[j]));
                        }
                        assert(seq_v(out@) =~= seq_v(v@));
                    }
                    Ok(out)
                },
                _ => Err(Error::Malformed(String::from_str("expected list"))),
            },
        }
    }
}

/// View of collected name/node pairs.
pub open spec fn pairs_v(s: Seq<(String, Node)>) -> Seq<(Seq<char>, NodeV)>
    decreases s.len(),
{
    if s.len() == 0 {
        Seq::empty()
    } else {
        pairs_v(s.drop_last()).push((s.last().0@, node_v(s.last().1)))
    }
}

/// `pairs_v` maps indices one for one.
pub proof fn lemma_pairs_v(s: Seq<(String, Node)>)
    ensures
        pairs_v(s).len() == s.len(),
        forall|i: int|
            0 <= i < s.len() ==> pairs_v(s)[i] == ((#[trigger] s[i]).0@, node_v(s[i].1)),
    decreases s.len(),
{
    if s.len() > 0 {
        lemma_pairs_v(s.drop_last());
        assert forall|i: int|
            0 <= i < s.len() implies pairs_v(s)[i] == ((#[trigger] s[i]).0@, node_v(s[i].1)) by {
            if i < s.len() - 1 {
                assert(s.drop_last()[i] == s[i]);
                assert(pairs_v(s)[i] == pairs_v(s.drop_last())[i]);
            }
        }
    }
}

/// Pushing a pair extends the view at the end.
pub proof fn lemma_pairs_v_push(s: Seq<(String, Node)>, e: (String, Node))
    ensures
        pairs_v(s.push(e)) == pairs_v(s).push((e.0@, node_v(e.1))),
{
    assert(s.push(e).drop_last() =~= s);
    assert(s.push(e).last() == e);
}


impl Binding {
    /// Renders a value as substitution text.
    pub fn value_to_string(&self, val: Value) -> (r: String)
        ensures
            r@ == expr::spec_to_string(val@),
    {
        expr::value_to_string(val)
    }

    /// Converts a value to a 32-bit status, as `eval_to_i32` does after
    /// evaluation.
    pub fn value_to_i32(&self, val: &Value) -> (r: Option<i32>)
        ensures
            match r {
                Some(c) => val@ matches ValueV::Int(x) && c as int == (
                if i32::MIN <= x <= i32::MAX {
                    x
                } else {
                    0
                }),
                None => !(val@ is Int),
            },
    {
        expr::value_to_i32(val)
    }

    /// Converts a scalar leaf node to its value, without evaluating it.
    pub fn yaml_to_value(&self, n: &Node) -> (r: Option<Value>)
        ensures
            match r {
                Some(v) => expr::spec_leaf(n@) == Some(v@),
                None => expr::spec_leaf(n@) is None,
            },
    {
        expr::yaml_to_value(n)
    }

    /// Converts a value to the leaf node that carries it.
    pub fn value_to_yaml(&self, v: Value) -> (r: Node)
        ensures
            r@ == expr::spec_value_node(v@),
    {
        expr::value_to_yaml(v)
    }
}

} // verus!
