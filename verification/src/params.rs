//! The parameter mapping of a query: parameter-name to parameter-value
//! strings, keys unique, insertion order kept but irrelevant to lookup.

use vstd::prelude::*;

verus! {

/// First-match lookup of a key in a sequence of key/value pairs.
pub open spec fn spec_get(ps: Seq<(Seq<char>, Seq<char>)>, k: Seq<char>) -> Option<Seq<char>>
    decreases ps.len(),
{
    if ps.len() == 0 {
        None
    } else if ps[0].0 == k {
        Some(ps[0].1)
    } else {
        spec_get(ps.drop_first(), k)
    }
}

/// A string-to-string parameter mapping with unique keys.
pub struct ParamMap {
    entries: Vec<(String, String)>,
}

impl ParamMap {
    /// The entries as key/value pairs of character sequences, in insertion
    /// order.
    pub closed spec fn pairs(self) -> Seq<(Seq<char>, Seq<char>)> {
        self.entries@.map_values(|p: (String, String)| (p.0@, p.1@))
    }

    /// Keys are pairwise distinct.
    pub open spec fn wf(self) -> bool {
        forall|i: int, j: int|
            0 <= i < j < self.pairs().len() ==> (#[trigger] self.pairs()[i]).0 != (
            #[trigger] self.pairs()[j]).0
    }

    /// Whether a key is present.
    pub open spec fn contains_key(self, k: Seq<char>) -> bool {
        spec_get(self.pairs(), k) is Some
    }

    /// The mapping as a mathematical map from key to value.
    pub open spec fn as_map(self) -> Map<Seq<char>, Seq<char>> {
        Map::new(
            |k: Seq<char>| spec_get(self.pairs(), k) is Some,
            |k: Seq<char>|
                match spec_get(self.pairs(), k) {
                    Some(v) => v,
                    None => Seq::empty(),
                },
        )
    }

    /// An empty mapping.
    pub fn new() -> (r: Self)
        ensures
            r.pairs().len() == 0,
            r.wf(),
    {
        ParamMap { entries: Vec::new() }
    }

    /// The number of entries.
    pub fn len(&self) -> (r: usize)
        ensures
            r == self.pairs().len(),
    {
        self.entries.len()
    }

    /// The entry at a position, in insertion order.
    pub fn entry_at(&self, i: usize) -> (r: &(String, String))
        requires
            i < self.pairs().len(),
        ensures
            (r.0@, r.1@) == self.pairs()[i as int],
    {
        &self.entries[i]
    }

    /// Sets `key` to `value`. A later value for the same key replaces the
    /// earlier one; a new key is appended.
    pub fn insert(&mut self, key: &str, value: &str)
        requires
            old(self).wf(),
        ensures
            final(self).wf(),
            forall|k: Seq<char>|
                #[trigger] spec_get(final(self).pairs(), k) == (if k == key@ {
                    Some(value@)
                } else {
                    spec_get(old(self).pairs(), k)
                }),
            final(self).as_map() == old(self).as_map().insert(key@, value@),
            !old(self).contains_key(key@) ==> final(self).pairs() == old(self).pairs().push(
                (key@, value@),
            ),
    {
        let k_string: String = key.to_owned();
        let v_string: String = value.to_owned();
        let ghost old_pairs = self.pairs();
        proof {
            assert(old_pairs.len() == self.entries@.len());
        }
        let n = self.entries.len();
        let mut i: usize = 0;
        while i < n
            invariant
                n == self.entries.len(),
                n == old_pairs.len(),
                i <= n,
                *self == *old(self),
                old(self).wf(),
                old_pairs == old(self).pairs(),
                forall|j: int| 0 <= j < i ==> (#[trigger] old(self).pairs()[j]).0 != key@,
                k_string@ == key@,
                v_string@ == value@,
            decreases n - i,
        {
            if self.entries[i].0 == k_string {
                proof {
                    assert(old_pairs[i as int].0 == key@);
                    lemma_spec_get_at(old_pairs, i as int, key@);
                }
                self.entries.remove(i);
                self.entries.insert(i, (k_string, v_string));
                proof {
                    let kv = (key@, value@);
                    assert(self.entries@ =~= old(self).entries@.update(i as int, (k_string, v_string)));
                    assert(self.pairs() =~~= old_pairs.update(i as int, kv));
                    lemma_spec_get_update_match(old_pairs, i as int, kv);
                    assert forall|p: int, q: int| 0 <= p < q < self.pairs().len() implies (
                    #[trigger] self.pairs()[p]).0 != (#[trigger] self.pairs()[q]).0 by {
                        assert(old(self).wf());
                        assert((old(self).pairs()[p]).0 != (old(self).pairs()[q]).0);
                        assert(self.pairs()[p].0 == old_pairs[p].0);
                        assert(self.pairs()[q].0 == old_pairs[q].0);
                    }
                    lemma_as_map_insert(*old(self), *self, key@, value@);
                }
                return ;
            }
            i += 1;
        }
        self.entries.push((k_string, v_string));
        proof {
            let kv = (key@, value@);
            assert(self.pairs() =~= old_pairs.push(kv));
            lemma_spec_get_absent(old_pairs, key@);
            assert forall|k: Seq<char>|
                #[trigger] spec_get(self.pairs(), k) == (if k == key@ {
                    Some(value@)
                } else {
                    spec_get(old_pairs, k)
                }) by {
                lemma_spec_get_push(old_pairs, kv, k);
            }
            assert forall|p: int, q: int| 0 <= p < q < self.pairs().len() implies (
            #[trigger] self.pairs()[p]).0 != (#[trigger] self.pairs()[q]).0 by {
                if q == self.pairs().len() - 1 {
                    assert(old_pairs[p].0 != key@);
                }
            }
            lemma_as_map_insert(*old(self), *self, key@, value@);
        }
    }

    /// Looks a key up; `None` exactly when the key was never set.
    pub fn get(&self, key: &str) -> (r: Option<&String>)
        ensures
            (match r {
                Some(v) => spec_get(self.pairs(), key@) == Some(v@),
                None => spec_get(self.pairs(), key@) is None,
            }),
    {
        let k_string: String = key.to_owned();
        let n = self.entries.len();
        let mut i: usize = 0;
        while i < n
            invariant
                n == self.entries.len(),
                i <= n,
                forall|j: int| 0 <= j < i ==> (#[trigger] self.pairs()[j]).0 != key@,
                k_string@ == key@,
            decreases n - i,
        {
            if self.entries[i].0 == k_string {
                proof {
                    lemma_spec_get_at(self.pairs(), i as int, key@);
                }
                return Some(&self.entries[i].1);
            }
            i += 1;
        }
        proof {
            lemma_spec_get_absent(self.pairs(), key@);
        }
        None
    }

    /// Sets every entry of `other` in turn: a key present in `other` takes
    /// `other`'s value, any other key keeps its value.
    pub fn merge(&mut self, other: &ParamMap)
        requires
            old(self).wf(),
            other.wf(),
        ensures
            final(self).wf(),
            forall|k: Seq<char>|
                #[trigger] spec_get(final(self).pairs(), k) == (match spec_get(other.pairs(), k) {
                    Some(v) => Some(v),
                    None => spec_get(old(self).pairs(), k)
                }),
            old(self).pairs().len() == 0 ==> final(self).pairs() == other.pairs(),
    {
        let n = other.entries.len();
        let mut i: usize = 0;
        while i < n
            invariant
                n == other.pairs().len(),
                i <= n,
                self.wf(),
                other.wf(),
                forall|k: Seq<char>|
                    #[trigger] spec_get(self.pairs(), k) == (match spec_get(
                        other.pairs().take(i as int),
                        k,
                    ) {
                        Some(v) => Some(v),
                        None => spec_get(old(self).pairs(), k)
                    }),
                old(self).pairs().len() == 0 ==> self.pairs() == other.pairs().take(i as int),
            decreases n - i,
        {
            let ghost prev = self.pairs();
            let entry = &other.entries[i];
            self.insert(entry.0.as_str(), entry.1.as_str());
            proof {
                let kv = other.pairs()[i as int];
                assert(other.pairs().take(i + 1) =~= other.pairs().take(i as int).push(kv));
                assert forall|j: int| 0 <= j < i implies (#[trigger] other.pairs().take(
                    i as int,
                )[j]).0 != kv.0 by {
                    assert(other.pairs()[j].0 != other.pairs()[i as int].0);
                }
                lemma_spec_get_absent(other.pairs().take(i as int), kv.0);
                assert forall|k: Seq<char>|
                    #[trigger] spec_get(self.pairs(), k) == (match spec_get(
                        other.pairs().take(i + 1),
                        k,
                    ) {
                        Some(v) => Some(v),
                        None => spec_get(old(self).pairs(), k)
                    }) by {
                    lemma_spec_get_push(other.pairs().take(i as int), kv, k);
                }
                if old(self).pairs().len() == 0 {
                    assert(spec_get(prev, kv.0) is None);
                    assert(self.pairs() =~= other.pairs().take(i + 1));
                }
            }
            i += 1;
        }
        proof {
            assert(other.pairs().take(n as int) =~= other.pairs());
        }
    }
}

/// Looking a key up after appending a pair: an already-present key keeps its
/// value, the appended key is found, any other key stays absent.
proof fn lemma_spec_get_push(ps: Seq<(Seq<char>, Seq<char>)>, p: (Seq<char>, Seq<char>), k: Seq<char>)
    ensures
        spec_get(ps.push(p), k) == (if spec_get(ps, k) is Some {
            spec_get(ps, k)
        } else if p.0 == k {
            Some(p.1)
        } else {
            None::<Seq<char>>
        }),
    decreases ps.len(),
{
    if ps.len() == 0 {
        assert(ps.push(p).drop_first() =~= Seq::<(Seq<char>, Seq<char>)>::empty());
    } else {
        assert(ps.push(p).drop_first() =~= ps.drop_first().push(p));
        lemma_spec_get_push(ps.drop_first(), p, k);
    }
}

/// A key matched by no pair is not found.
proof fn lemma_spec_get_absent(ps: Seq<(Seq<char>, Seq<char>)>, k: Seq<char>)
    requires
        forall|j: int| 0 <= j < ps.len() ==> (#[trigger] ps[j]).0 != k,
    ensures
        spec_get(ps, k) is None,
    decreases ps.len(),
{
    if ps.len() > 0 {
        lemma_spec_get_absent(ps.drop_first(), k);
    }
}

/// The first pair whose key matches decides the lookup.
proof fn lemma_spec_get_at(ps: Seq<(Seq<char>, Seq<char>)>, i: int, k: Seq<char>)
    requires
        0 <= i < ps.len(),
        ps[i].0 == k,
        forall|j: int| 0 <= j < i ==> (#[trigger] ps[j]).0 != k,
    ensures
        spec_get(ps, k) == Some(ps[i].1),
    decreases i,
{
    if i > 0 {
        lemma_spec_get_at(ps.drop_first(), i - 1, k);
    }
}

/// Replacing the first pair whose key matches changes that key's value and
/// no other.
proof fn lemma_spec_get_update_match(
    ps: Seq<(Seq<char>, Seq<char>)>,
    i: int,
    kv: (Seq<char>, Seq<char>),
)
    requires
        0 <= i < ps.len(),
        ps[i].0 == kv.0,
        forall|j: int| 0 <= j < i ==> (#[trigger] ps[j]).0 != kv.0,
    ensures
        forall|k: Seq<char>|
            #[trigger] spec_get(ps.update(i, kv), k) == (if k == kv.0 {
                Some(kv.1)
            } else {
                spec_get(ps, k)
            }),
    decreases i,
{
    if i == 0 {
        assert forall|k: Seq<char>|
            #[trigger] spec_get(ps.update(i, kv), k) == (if k == kv.0 {
                Some(kv.1)
            } else {
                spec_get(ps, k)
            }) by {
            assert(ps.update(0, kv)[0] == kv);
            assert(ps.update(0, kv).drop_first() =~= ps.drop_first());
        }
    } else {
        lemma_spec_get_update_match(ps.drop_first(), i - 1, kv);
        assert forall|k: Seq<char>|
            #[trigger] spec_get(ps.update(i, kv), k) == (if k == kv.0 {
                Some(kv.1)
            } else {
                spec_get(ps, k)
            }) by {
            assert(ps.update(i, kv)[0] == ps[0]);
            assert(ps.update(i, kv).drop_first() =~= ps.drop_first().update(i - 1, kv));
            assert(spec_get(ps.drop_first().update(i - 1, kv), k) == (if k == kv.0 {
                Some(kv.1)
            } else {
                spec_get(ps.drop_first(), k)
            }));
        }
    }
}

/// A pointwise-updated lookup yields the updated mathematical map.
proof fn lemma_as_map_insert(before: ParamMap, after: ParamMap, key: Seq<char>, value: Seq<char>)
    requires
        forall|k: Seq<char>|
            #[trigger] spec_get(after.pairs(), k) == (if k == key {
                Some(value)
            } else {
                spec_get(before.pairs(), k)
            }),
    ensures
        after.as_map() == before.as_map().insert(key, value),
{
    assert(after.as_map() =~= before.as_map().insert(key, value));
}

} // verus!
