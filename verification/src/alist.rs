use vstd::prelude::*;
use crate::primitives::{bytes_eq, NetAccount};

verus! {

/// An address-keyed table with unique keys, the registry's in-memory shape
/// for both the pending identities and the tracked external contexts. Its
/// mathematical value is the map from address bytes to the value's view.
pub struct AList<V> {
    pub entries: Vec<(NetAccount, V)>,
}

/// The map an entry sequence denotes: later entries win, though under
/// `wf` the keys are unique and the point is moot.
pub open spec fn al_map<V: View>(s: Seq<(NetAccount, V)>) -> Map<Seq<u8>, V::V>
    decreases s.len(),
{
    if s.len() == 0 {
        Map::empty()
    } else {
        al_map(s.drop_last()).insert(s.last().0@, s.last().1@)
    }
}

/// Key uniqueness of an entry sequence: no address occurs twice.
pub open spec fn al_unique<V>(s: Seq<(NetAccount, V)>) -> bool {
    forall|i: int, j: int| 0 <= i < j < s.len() ==> s[i].0@ != s[j].0@
}

impl<V: View> AList<V> {
    pub open spec fn view_map(&self) -> Map<Seq<u8>, V::V> {
        al_map(self.entries@)
    }

    pub open spec fn wf(&self) -> bool {
        al_unique(self.entries@)
    }

    pub fn new() -> (r: Self)
        ensures
            r.wf(),
            r.view_map() == Map::<Seq<u8>, V::V>::empty(),
            r.entries@.len() == 0,
    {
        AList { entries: Vec::new() }
    }

    /// The index holding a key, if any; relates the entry sequence to the
    /// denoted map.
    pub fn index_of(&self, key: &Vec<u8>) -> (r: Option<usize>)
        requires
            self.wf(),
        ensures
            match r {
                Some(i) => i < self.entries@.len() && self.entries@[i as int].0@ == key@
                    && self.view_map().contains_key(key@)
                    && self.view_map()[key@] == self.entries@[i as int].1@,
                None => !self.view_map().contains_key(key@),
            },
    {
        let mut i: usize = 0;
        while i < self.entries.len()
            invariant
                self.wf(),
                0 <= i <= self.entries@.len(),
                forall|j: int| 0 <= j < i ==> self.entries@[j].0@ != key@,
            decreases self.entries@.len() - i,
        {
            if bytes_eq(&self.entries[i].0.bytes, key) {
                proof {
                    lemma_al_map_index(self.entries@, i as int);
                }
                return Some(i);
            }
            i += 1;
        }
        proof {
            if self.view_map().contains_key(key@) {
                lemma_al_map_key_exists(self.entries@, key@);
            }
        }
        None
    }

    /// Inserts a value under a key, replacing what the key held.
    pub fn insert(&mut self, key: NetAccount, value: V)
        requires
            old(self).wf(),
        ensures
            final(self).wf(),
            final(self).view_map() == old(self).view_map().insert(key@, value@),
            forall|i: int| 0 <= i < final(self).entries@.len() ==> (
                #[trigger] final(self).entries@[i] == (key, value) || exists|j: int|
                    0 <= j < old(self).entries@.len() && final(self).entries@[i]
                        == old(self).entries@[j]
            ),
    {
        let ghost s0 = self.entries@;
        let idx = self.index_of(&key.bytes);
        match idx {
            Some(i) => {
                proof {
                    lemma_al_map_update(s0, i as int, (key, value));
                }
                self.entries.set(i, (key, value));
                proof {
                    assert forall|a: int, b: int| 0 <= a < b < self.entries@.len()
                        implies self.entries@[a].0@ != self.entries@[b].0@ by {
                        assert(s0[a].0@ != s0[b].0@);
                    }
                }
            }
            None => {
                proof {
                    assert forall|j: int| 0 <= j < s0.len() implies s0[j].0@ != key@ by {
                        lemma_al_map_index(s0, j);
                    }
                }
                self.entries.push((key, value));
                proof {
                    assert(self.entries@.drop_last() =~= s0);
                    assert forall|a: int, b: int| 0 <= a < b < self.entries@.len()
                        implies self.entries@[a].0@ != self.entries@[b].0@ by {
                        if b < self.entries@.len() - 1 {
                            assert(s0[a].0@ != s0[b].0@);
                        } else {
                            assert(self.entries@[a] == s0[a]);
                        }
                    }
                }
            }
        }
    }

}

/// A key the denoted map holds is listed at some index.
pub proof fn lemma_al_map_key_exists<V: View>(s: Seq<(NetAccount, V)>, k: Seq<u8>)
    requires
        al_map(s).contains_key(k),
    ensures
        exists|i: int| 0 <= i < s.len() && s[i].0@ == k,
    decreases s.len(),
{
    if s.len() > 0 {
        if k == s.last().0@ {
            assert(s[s.len() - 1].0@ == k);
        } else {
            lemma_al_map_key_exists(s.drop_last(), k);
            let i = choose|i: int| 0 <= i < s.drop_last().len() && s.drop_last()[i].0@ == k;
            assert(s[i].0@ == k);
        }
    }
}

/// Under unique keys, every listed entry is the denoted map's image of its
/// key.
pub proof fn lemma_al_map_index<V: View>(s: Seq<(NetAccount, V)>, i: int)
    requires
        0 <= i < s.len(),
        al_unique(s),
    ensures
        al_map(s).contains_key(s[i].0@),
        al_map(s)[s[i].0@] == s[i].1@,
    decreases s.len(),
{
    if i < s.len() - 1 {
        assert forall|a: int, b: int| 0 <= a < b < s.drop_last().len()
            implies s.drop_last()[a].0@ != s.drop_last()[b].0@ by {
            assert(s[a].0@ != s[b].0@);
        }
        lemma_al_map_index(s.drop_last(), i);
        assert(s.drop_last()[i] == s[i]);
        assert(s[i].0@ != s[s.len() - 1].0@);
    }
}

/// Replacing the entry at a key's index replaces that key's image in the
/// denoted map.
pub proof fn lemma_al_map_update<V: View>(s: Seq<(NetAccount, V)>, i: int, e: (NetAccount, V))
    requires
        0 <= i < s.len(),
        al_unique(s),
        e.0@ == s[i].0@,
    ensures
        al_map(s.update(i, e)) == al_map(s).insert(e.0@, e.1@),
    decreases s.len(),
{
    let t = s.update(i, e);
    if i == s.len() - 1 {
        assert(t.drop_last() =~= s.drop_last());
        assert(al_map(t) =~= al_map(s).insert(e.0@, e.1@));
    } else {
        assert(t.drop_last() =~= s.drop_last().update(i, e));
        assert forall|a: int, b: int| 0 <= a < b < s.drop_last().len()
            implies s.drop_last()[a].0@ != s.drop_last()[b].0@ by {
            assert(s[a].0@ != s[b].0@);
        }
        lemma_al_map_update(s.drop_last(), i, e);
        assert(t.last() == s.last());
        assert(s.last().0@ != e.0@);
        assert(al_map(t) =~= al_map(s).insert(e.0@, e.1@));
    }
}

} // verus!
