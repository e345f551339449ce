//! Document tree nodes.
//!
//! A script document is a tree of nodes: scalar leaves (null, booleans,
//! integers, reals kept as literal text, strings), sequences, and ordered
//! mappings. The host parses document text into this tree; the engine only
//! ever reads it.

use vstd::prelude::*;

verus! {

broadcast use vstd::seq::axiom_seq_index_decreases, vstd::seq::axiom_seq_subrange_decreases, vstd::std_specs::vec::axiom_vec_decreases_to_view;

/// Mathematical view of a document node.
pub enum NodeV {
    Null,
    Bool(bool),
    Int(int),
    Real(Seq<char>),
    Str(Seq<char>),
    Array(Seq<NodeV>),
    Hash(Seq<(NodeV, NodeV)>),
}

#[derive(Debug, PartialEq)]
/// A document tree node. `Hash` keeps its entries in document order.
pub enum Node {
    Null,
    Bool(bool),
    Int(i64),
    Real(String),
    Str(String),
    Array(Vec<Node>),
    Hash(Vec<(Node, Node)>),
}

/// View of one node.
pub open spec fn node_v(n: Node) -> NodeV
    decreases n,
{
    match n {
        Node::Null => NodeV::Null,
        Node::Bool(b) => NodeV::Bool(b),
        Node::Int(i) => NodeV::Int(i as int),
        Node::Real(s) => NodeV::Real(s@),
        Node::Str(s) => NodeV::Str(s@),
        Node::Array(v) => NodeV::Array(seq_v(v@)),
        Node::Hash(v) => NodeV::Hash(entries_v(v@)),
    }
}

/// Element-wise view of a sequence of nodes.
pub open spec fn seq_v(s: Seq<Node>) -> Seq<NodeV>
    decreases s,
{
    if s.len() == 0 {
        Seq::empty()
    } else {
        seq_v(s.drop_last()).push(node_v(s.last()))
    }
}

/// Element-wise view of a sequence of mapping entries.
pub open spec fn entries_v(s: Seq<(Node, Node)>) -> Seq<(NodeV, NodeV)>
    decreases s,
{
    if s.len() == 0 {
        Seq::empty()
    } else {
        entries_v(s.drop_last()).push((node_v(s.last().0), node_v(s.last().1)))
    }
}

impl View for Node {
    type V = NodeV;

    open spec fn view(&self) -> NodeV {
        node_v(*self)
    }
}

/// `seq_v` maps indices one for one.
pub proof fn lemma_seq_v(s: Seq<Node>)
    ensures
        seq_v(s).len() == s.len(),
        forall|i: int| 0 <= i < s.len() ==> seq_v(s)[i] == node_v(#[trigger] s[i]),
    decreases s.len(),
{
    if s.len() > 0 {
        lemma_seq_v(s.drop_last());
        assert forall|i: int| 0 <= i < s.len() implies seq_v(s)[i] == node_v(#[trigger] s[i]) by {
            if i < s.len() - 1 {
                assert(s.drop_last()[i] == s[i]);
                assert(seq_v(s)[i] == seq_v(s.drop_last())[i]);
            }
        }
    }
}

/// `entries_v` maps indices one for one.
pub proof fn lemma_entries_v(s: Seq<(Node, Node)>)
    ensures
        entries_v(s).len() == s.len(),
        forall|i: int|
            0 <= i < s.len() ==> entries_v(s)[i] == (
            node_v(#[trigger] s[i].0),
            node_v(s[i].1),
            ),
    decreases s.len(),
{
    if s.len() > 0 {
        lemma_entries_v(s.drop_last());
        assert forall|i: int|
            0 <= i < s.len() implies entries_v(s)[i] == (
            node_v(#[trigger] s[i].0),
            node_v(s[i].1),
            ) by {
            if i < s.len() - 1 {
                assert(s.drop_last()[i] == s[i]);
                assert(entries_v(s)[i] == entries_v(s.drop_last())[i]);
            }
        }
    }
}

impl Node {
    /// Structural copy; the copy has the same view.
    pub fn deep_copy(&self) -> (r: Node)
        ensures
            r@ == self@,
        decreases *self,
    {
        match self {
            Node::Null => Node::Null,
            Node::Bool(b) => Node::Bool(*b),
            Node::Int(i) => Node::Int(*i),
            Node::Real(s) => Node::Real(s.clone()),
            Node::Str(s) => Node::Str(s.clone()),
            Node::Array(v) => {
                let mut out: Vec<Node> = Vec::new();
                let mut i: usize = 0;
                while i < v.len()
                    invariant
                        i <= v.len(),
                        out@.len() == i,
                        forall|j: int| 0 <= j < i ==> out@[j]@ == node_v(#[trigger] v@[j]),
                        decreases_to!(*self => *v),
                    decreases v.len() - i,
                {
                    proof {
                        assert(decreases_to!(*v => v@[i as int]));
                    }
                    out.push(v[i].deep_copy());
                    i += 1;
                }
                proof {
                    lemma_seq_v(v@);
                    lemma_seq_v(out@);
                    assert forall|j: int| 0 <= j < v@.len() implies seq_v(out@)[j] == seq_v(v@)[j] by {
                        assert(seq_v(out@)[j] == node_v(out@[j]));
                        assert(seq_v(v@)[j] == node_v(v@[j]));
                        assert(out@[j]@ == node_v(v@[j]));
                    }
                    assert(seq_v(out@) =~= seq_v(v@));
                }
                Node::Array(out)
            },
            Node::Hash(v) => {
                let mut out: Vec<(Node, Node)> = Vec::new();
                let mut i: usize = 0;
                while i < v.len()
                    invariant
                        i <= v.len(),
                        out@.len() == i,
                        forall|j: int|
                            0 <= j < i ==> (#[trigger] out@[j]).0@ == node_v(v@[j].0)
                                && out@[j].1@ == node_v(v@[j].1),
                        decreases_to!(*self => *v),
                    decreases v.len() - i,
                {
                    proof {
                        assert(decreases_to!(*v => v@[i as int]));
                    }
                    let k = v[i].0.deep_copy();
                    let val = v[i].1.deep_copy();
                    out.push((k, val));
                    i += 1;
                }
                proof {
                    lemma_entries_v(v@);
                    lemma_entries_v(out@);
                    assert forall|j: int|
                        0 <= j < v@.len() implies entries_v(out@)[j] == entries_v(v@)[j] by {
                        assert(entries_v(out@)[j] == (node_v(out@[j].0), node_v(out@[j].1)));
                        assert(entries_v(v@)[j] == (node_v(v@[j].0), node_v(v@[j].1)));
                        assert(out@[j].0@ == node_v(v@[j].0));
                        assert(out@[j].1@ == node_v(v@[j].1));
                    }
                    assert(entries_v(out@) =~= entries_v(v@));
                }
                Node::Hash(out)
            },
        }
    }
}

/// First value in `entries` whose key is the string `key`; `None` when no
/// entry has it.
pub open spec fn spec_hash_get(entries: Seq<(NodeV, NodeV)>, key: Seq<char>) -> Option<NodeV>
    decreases entries.len(),
{
    if entries.len() == 0 {
        None
    } else if entries[0].0 == NodeV::Str(key) {
        Some(entries[0].1)
    } else {
        spec_hash_get(entries.drop_first(), key)
    }
}

/// Looks `key` up among mapping entries, first match in document order.
pub fn hash_get<'a>(entries: &'a Vec<(Node, Node)>, key: &str) -> (r: Option<&'a Node>)
    ensures
        match r {
            Some(n) => spec_hash_get(entries_v(entries@), key@) == Some(n@),
            None => spec_hash_get(entries_v(entries@), key@) is None,
        },
{
    proof {
        lemma_entries_v(entries@);
    }
    let ghost ev = entries_v(entries@);
    proof {
        assert(ev.subrange(0, ev.len() as int) =~= ev);
    }
    let mut i: usize = 0;
    while i < entries.len()
        invariant
            i <= entries.len(),
            ev == entries_v(entries@),
            ev.len() == entries@.len(),
            forall|j: int|
                0 <= j < entries@.len() ==> ev[j] == (
                node_v(#[trigger] entries@[j].0),
                node_v(entries@[j].1),
                ),
            spec_hash_get(ev, key@) == spec_hash_get(ev.subrange(i as int, ev.len() as int), key@),
        decreases entries.len() - i,
    {
        let hit = match &entries[i].0 {
            Node::Str(s) => crate::text::str_eq(s.as_str(), key),
            _ => false,
        };
        proof {
            let tail = ev.subrange(i as int, ev.len() as int);
            assert(tail[0] == ev[i as int]);
            assert(tail.drop_first() =~= ev.subrange(i + 1, ev.len() as int));
        }
        if hit {
            return Some(&entries[i].1);
        }
        i += 1;
    }
    proof {
        assert(ev.subrange(ev.len() as int, ev.len() as int) =~= Seq::<(NodeV, NodeV)>::empty());
    }
    None
}

} // verus!
