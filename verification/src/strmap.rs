//! A string-keyed map of document nodes, kept as an association list with
//! unique keys and viewed as a mathematical `Map`.

use vstd::prelude::*;

use crate::node::{node_v, Node, NodeV};

verus! {

/// A name-to-node table. Keys are unique.
pub struct StrMap {
    pub entries: Vec<(String, Node)>,
}

/// The map denoted by an association list; later entries win, though a
/// well-formed table never repeats a key.
pub open spec fn map_of(entries: Seq<(String, Node)>) -> Map<Seq<char>, NodeV>
    decreases entries.len(),
{
    if entries.len() == 0 {
        Map::empty()
    } else {
        map_of(entries.drop_last()).insert(entries.last().0@, node_v(entries.last().1))
    }
}

impl View for StrMap {
    type V = Map<Seq<char>, NodeV>;

    open spec fn view(&self) -> Map<Seq<char>, NodeV> {
        map_of(self.entries@)
    }
}

/// No two entries share a key.
pub open spec fn keys_unique(entries: Seq<(String, Node)>) -> bool {
    forall|i: int, j: int|
        0 <= i < j < entries.len() ==> (#[trigger] entries[i]).0@ != (#[trigger] entries[j]).0@
}

/// The domain of `map_of` is exactly the listed keys, and with unique keys
/// each entry's value is the map's value at its key.
pub proof fn lemma_map_of(entries: Seq<(String, Node)>)
    ensures
        forall|k: Seq<char>|
            #[trigger] map_of(entries).contains_key(k) <==> exists|i: int|
                0 <= i < entries.len() && (#[trigger] entries[i]).0@ == k,
        keys_unique(entries) ==> forall|i: int|
            0 <= i < entries.len() ==> map_of(entries)[(#[trigger] entries[i]).0@] == node_v(
                entries[i].1,
            ),
    decreases entries.len(),
{
    if entries.len() > 0 {
        lemma_map_of(entries.drop_last());
        assert forall|k: Seq<char>| #[trigger]
            map_of(entries).contains_key(k) implies exists|i: int|
            0 <= i < entries.len() && (#[trigger] entries[i]).0@ == k by {
            if k == entries.last().0@ {
                assert(entries[entries.len() - 1].0@ == k);
            } else {
                let i = choose|i: int|
                    0 <= i < entries.drop_last().len() && (#[trigger] entries.drop_last()[i]).0@
                        == k;
                assert(entries[i].0@ == k);
            }
        }
        assert forall|i: int|
            0 <= i < entries.len() && map_of(entries).contains_key(
                (#[trigger] entries[i]).0@,
            ) implies true by {}
        assert forall|i: int| 0 <= i < entries.len() implies map_of(entries).contains_key(
            (#[trigger] entries[i]).0@,
        ) by {
            if i < entries.len() - 1 {
                assert(entries.drop_last()[i] == entries[i]);
                assert(map_of(entries.drop_last()).contains_key(entries[i].0@));
            }
        }
        if keys_unique(entries) {
            assert forall|i: int| 0 <= i < entries.len() implies map_of(entries)[(
            #[trigger] entries[i]).0@] == node_v(entries[i].1) by {
                if i < entries.len() - 1 {
                    assert(entries.drop_last()[i] == entries[i]);
                    assert(entries[i].0@ != entries.last().0@);
                    assert(forall|j: int|
                        0 <= j < entries.drop_last().len() ==> #[trigger] entries.drop_last()[j]
                            == entries[j]);
                    assert(keys_unique(entries.drop_last()));
                    assert(map_of(entries.drop_last())[entries[i].0@] == node_v(entries[i].1));
                }
            }
        }
    }
}

impl StrMap {
    /// An empty table.
    pub fn new() -> (r: StrMap)
        ensures
            r@ == Map::<Seq<char>, NodeV>::empty(),
            r.wf(),
    {
        StrMap { entries: Vec::new() }
    }

    /// Well-formedness: unique keys.
    pub open spec fn wf(&self) -> bool {
        keys_unique(self.entries@)
    }

    /// The node bound to `name`, if any.
    pub fn get<'a>(&'a self, name: &str) -> (r: Option<&'a Node>)
        requires
            self.wf(),
        ensures
            match r {
                Some(n) => self@.contains_key(name@) && n@ == self@[name@],
                None => !self@.contains_key(name@),
            },
    {
        proof {
            lemma_map_of(self.entries@);
        }
        let mut i: usize = 0;
        while i < self.entries.len()
            invariant
                i <= self.entries@.len(),
                self.wf(),
                forall|j: int| 0 <= j < i ==> (#[trigger] self.entries@[j]).0@ != name@,
            decreases self.entries@.len() - i,
        {
            if crate::text::str_eq(self.entries[i].0.as_str(), name) {
                proof {
                    lemma_map_of(self.entries@);
                }
                return Some(&self.entries[i].1);
            }
            i += 1;
        }
        proof {
            lemma_map_of(self.entries@);
            if self@.contains_key(name@) {
                let j = choose|j: int|
                    0 <= j < self.entries@.len() && (#[trigger] self.entries@[j]).0@ == name@;
                assert(false);
            }
        }
        None
    }

    /// Whether `name` is bound.
    pub fn contains(&self, name: &str) -> (r: bool)
        requires
            self.wf(),
        ensures
            r == self@.contains_key(name@),
    {
        self.get(name).is_some()
    }

    /// Binds `name` to `val`, replacing any previous binding.
    pub fn insert(&mut self, name: String, val: Node)
        requires
            old(self).wf(),
        ensures
            final(self).wf(),
            final(self)@ == old(self)@.insert(name@, node_v(val)),
    {
        proof {
            lemma_map_of(self.entries@);
        }
        let ghost entries0 = self.entries@;
        let mut i: usize = 0;
        while i < self.entries.len()
            invariant
                i <= self.entries@.len(),
                self.entries@ == entries0,
                entries0 == old(self).entries@,
                keys_unique(entries0),
                forall|j: int| 0 <= j < i ==> (#[trigger] entries0[j]).0@ != name@,
            decreases self.entries@.len() - i,
        {
            if crate::text::str_eq(self.entries[i].0.as_str(), name.as_str()) {
                let ghost e = (name, val);
                self.entries[i] = (name, val);
                proof {
                    assert(self.entries@ == entries0.update(i as int, e));
                    assert(e.0@ == entries0[i as int].0@);
                    lemma_replace_at(entries0, i as int, e);
                    assert(map_of(self.entries@) == map_of(entries0).insert(e.0@, node_v(e.1)));
                    assert(old(self)@ == map_of(entries0));
                    assert(map_of(self.entries@) == old(self)@.insert(name@, node_v(val)));
                }
                return ;
            }
            i += 1;
        }
        self.entries.push((name, val));
        proof {
            assert(self.entries@.drop_last() =~= entries0);
        }
    }
}

/// Replacing the entry at `i` with one that has the same key updates the
/// denoted map at that key alone, and keeps keys unique.
proof fn lemma_replace_at(entries: Seq<(String, Node)>, i: int, e: (String, Node))
    requires
        0 <= i < entries.len(),
        keys_unique(entries),
        e.0@ == entries[i].0@,
    ensures
        keys_unique(entries.update(i, e)),
        map_of(entries.update(i, e)) == map_of(entries).insert(e.0@, node_v(e.1)),
    decreases entries.len(),
{
    let upd = entries.update(i, e);
    assert forall|a: int, b: int|
        0 <= a < b < upd.len() implies (#[trigger] upd[a]).0@ != (#[trigger] upd[b]).0@ by {
        assert(upd[a].0@ == entries[a].0@);
        assert(upd[b].0@ == entries[b].0@);
    }
    if i == entries.len() - 1 {
        assert(upd.drop_last() =~= entries.drop_last());
        assert(map_of(upd) == map_of(entries.drop_last()).insert(e.0@, node_v(e.1)));
        assert(map_of(entries) == map_of(entries.drop_last()).insert(
            entries[i].0@,
            node_v(entries[i].1),
        ));
        assert(map_of(entries).insert(e.0@, node_v(e.1)) =~= map_of(entries.drop_last()).insert(
            e.0@,
            node_v(e.1),
        ));
    } else {
        assert(upd.drop_last() =~= entries.drop_last().update(i, e));
        assert(upd.last() == entries.last());
        lemma_replace_at(entries.drop_last(), i, e);
        assert(map_of(upd) == map_of(entries.drop_last()).insert(e.0@, node_v(e.1)).insert(
            entries.last().0@,
            node_v(entries.last().1),
        ));
        assert(entries.last().0@ != e.0@);
        assert(map_of(entries.drop_last()).insert(e.0@, node_v(e.1)).insert(
            entries.last().0@,
            node_v(entries.last().1),
        ) =~= map_of(entries.drop_last()).insert(
            entries.last().0@,
            node_v(entries.last().1),
        ).insert(e.0@, node_v(e.1)));
    }
}

/// Two lists with pointwise equal key and value views denote the same map.
proof fn lemma_map_of_congruent(a: Seq<(String, Node)>, b: Seq<(String, Node)>)
    requires
        a.len() == b.len(),
        forall|i: int|
            0 <= i < a.len() ==> (#[trigger] a[i]).0@ == (#[trigger] b[i]).0@ && node_v(a[i].1)
                == node_v(b[i].1),
    ensures
        map_of(a) == map_of(b),
    decreases a.len(),
{
    if a.len() > 0 {
        assert forall|i: int|
            0 <= i < a.drop_last().len() implies (#[trigger] a.drop_last()[i]).0@ == (
        #[trigger] b.drop_last()[i]).0@ && node_v(a.drop_last()[i].1) == node_v(
            b.drop_last()[i].1,
        ) by {
            assert(a.drop_last()[i] == a[i]);
            assert(b.drop_last()[i] == b[i]);
        }
        lemma_map_of_congruent(a.drop_last(), b.drop_last());
        assert(a[a.len() - 1].0@ == b[b.len() - 1].0@);
        assert(node_v(a[a.len() - 1].1) == node_v(b[b.len() - 1].1));
    }
}

impl StrMap {
    /// A structural copy with the same view.
    pub fn duplicate(&self) -> (r: StrMap)
        requires
            self.wf(),
        ensures
            r.wf(),
            r@ == self@,
    {
        let mut out: Vec<(String, Node)> = Vec::new();
        let mut i: usize = 0;
        while i < self.entries.len()
            invariant
                i <= self.entries@.len(),
                out@.len() == i,
                forall|j: int|
                    0 <= j < i ==> (#[trigger] out@[j]).0@ == self.entries@[j].0@ && node_v(
                        out@[j].1,
                    ) == node_v(self.entries@[j].1),
            decreases self.entries@.len() - i,
        {
            let k = self.entries[i].0.clone();
            let v = self.entries[i].1.deep_copy();
            out.push((k, v));
            i += 1;
        }
        proof {
            lemma_map_of_congruent(out@, self.entries@);
            assert forall|a: int, b: int|
                0 <= a < b < out@.len() implies (#[trigger] out@[a]).0@ != (
            #[trigger] out@[b]).0@ by {
                assert(out@[a].0@ == self.entries@[a].0@);
                assert(out@[b].0@ == self.entries@[b].0@);
            }
        }
        StrMap { entries: out }
    }
}

} // verus!
