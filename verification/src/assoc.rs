//! A small association map with unique `u64` keys, used for the driver's
//! shared lookup tables: queue pairs, per-operation contexts, and control
//! operations. Insertion overwrites, removal untracks, and both report
//! whether the key was present.

use vstd::prelude::*;

verus! {

/// The value stored under `k`, if any.
pub open spec fn assoc_find<V>(s: Seq<(u64, V)>, k: u64) -> Option<V>
    decreases s.len(),
{
    if s.len() == 0 {
        None
    } else if s[0].0 == k {
        Some(s[0].1)
    } else {
        assoc_find(s.skip(1), k)
    }
}

/// No two entries share a key.
pub open spec fn assoc_unique<V>(s: Seq<(u64, V)>) -> bool {
    forall|i: int, j: int| 0 <= i < j < s.len() ==> (#[trigger] s[i]).0 != (#[trigger] s[j]).0
}

/// A lookup table keyed by `u64` with at most one value per key.
pub struct AssocMap<V> {
    entries: Vec<(u64, V)>,
}

impl<V> AssocMap<V> {
    /// The stored pairs, in insertion order.
    pub closed spec fn view(&self) -> Seq<(u64, V)> {
        self.entries@
    }

    /// Structural invariant: keys are unique.
    pub open spec fn wf(&self) -> bool {
        assoc_unique(self@)
    }

    /// The value stored under `k`, if any.
    pub open spec fn spec_get(&self, k: u64) -> Option<V> {
        assoc_find(self@, k)
    }

    /// Creates an empty map.
    pub fn new() -> (r: AssocMap<V>)
        ensures
            r.wf(),
            r@ =~= Seq::<(u64, V)>::empty(),
            forall|k: u64| r.spec_get(k) is None,
    {
        let r = AssocMap { entries: Vec::new() };
        proof {
            assert forall|k: u64| r.spec_get(k) is None by {}
        }
        r
    }

    /// Number of stored pairs.
    pub fn len(&self) -> (r: usize)
        ensures
            r == self@.len(),
    {
        self.entries.len()
    }

    /// Reports whether `k` is present.
    pub fn contains_key(&self, k: u64) -> (r: bool)
        requires
            self.wf(),
        ensures
            r == (self.spec_get(k) is Some),
    {
        let idx = assoc_index(&self.entries, k);
        proof {
            lemma_assoc_none(self.entries@, k);
            if idx is Some {
                lemma_assoc_index(self.entries@, k, idx->Some_0 as int);
            }
        }
        idx.is_some()
    }

    /// Stores `v` under `k`, overwriting any prior value, and reports whether
    /// one was there. Every other key's lookup is untouched.
    pub fn insert(&mut self, k: u64, v: V) -> (had: bool)
        requires
            old(self).wf(),
        ensures
            final(self).wf(),
            had == (old(self).spec_get(k) is Some),
            final(self).spec_get(k) == Some(v),
            forall|k2: u64| k2 != k ==> final(self).spec_get(k2) == old(self).spec_get(k2),
    {
        let idx = assoc_index(&self.entries, k);
        let ghost s0 = self.entries@;
        let had = match idx {
            Some(i) => {
                proof {
                    lemma_assoc_index(s0, k, i as int);
                    lemma_assoc_remove(s0, k, i as int);
                }
                let _ = self.entries.remove(i);
                true
            },
            None => {
                proof {
                    lemma_assoc_none(s0, k);
                }
                false
            },
        };
        let ghost s1 = self.entries@;
        proof {
            lemma_assoc_none(s1, k);
            lemma_assoc_push(s1, k, v);
        }
        self.entries.push((k, v));
        proof {
            assert forall|k2: u64| k2 != k implies final(self).spec_get(k2) == old(
                self,
            ).spec_get(k2) by {
                lemma_assoc_push_other(s1, k, v, k2);
                if idx is Some {
                    lemma_assoc_remove(s0, k, idx->Some_0 as int);
                }
            }
        }
        had
    }

    /// Removes the value under `k`, if any, and reports whether one was
    /// there. Every other key's lookup is untouched.
    pub fn remove(&mut self, k: u64) -> (had: bool)
        requires
            old(self).wf(),
        ensures
            final(self).wf(),
            had == (old(self).spec_get(k) is Some),
            final(self).spec_get(k) is None,
            forall|k2: u64| k2 != k ==> final(self).spec_get(k2) == old(self).spec_get(k2),
            !had ==> final(self)@ == old(self)@,
    {
        let idx = assoc_index(&self.entries, k);
        match idx {
            Some(i) => {
                proof {
                    lemma_assoc_index(self.entries@, k, i as int);
                    lemma_assoc_remove(self.entries@, k, i as int);
                }
                let _ = self.entries.remove(i);
                true
            },
            None => {
                proof {
                    lemma_assoc_none(self.entries@, k);
                }
                false
            },
        }
    }
}

impl<V: Copy> AssocMap<V> {
    /// The value stored under `k`, if any.
    pub fn get(&self, k: u64) -> (r: Option<V>)
        requires
            self.wf(),
        ensures
            r == self.spec_get(k),
    {
        let idx = assoc_index(&self.entries, k);
        proof {
            lemma_assoc_none(self.entries@, k);
            if idx is Some {
                lemma_assoc_index(self.entries@, k, idx->Some_0 as int);
            }
        }
        match idx {
            Some(i) => Some(self.entries[i].1),
            None => None,
        }
    }
}

/// Index of the entry keyed `k`, if any.
fn assoc_index<V>(entries: &Vec<(u64, V)>, k: u64) -> (r: Option<usize>)
    ensures
        r matches Some(i) ==> i < entries@.len() && entries@[i as int].0 == k && (forall|j: int|
            0 <= j < i ==> (#[trigger] entries@[j]).0 != k),
        r is None ==> forall|j: int| 0 <= j < entries@.len() ==> (#[trigger] entries@[j]).0 != k,
{
    let n = entries.len();
    let mut i: usize = 0;
    while i < n
        invariant
            i <= n,
            n == entries@.len(),
            forall|j: int| 0 <= j < i ==> (#[trigger] entries@[j]).0 != k,
        decreases n - i,
    {
        if entries[i].0 == k {
            return Some(i);
        }
        i = i + 1;
    }
    None
}

/// `assoc_find` yields nothing exactly when no entry carries the key.
proof fn lemma_assoc_none<V>(s: Seq<(u64, V)>, k: u64)
    ensures
        (assoc_find(s, k) is None) <==> (forall|j: int|
            0 <= j < s.len() ==> (#[trigger] s[j]).0 != k),
    decreases s.len(),
{
    if s.len() > 0 {
        lemma_assoc_none(s.skip(1), k);
        assert(forall|j: int| 0 <= j < s.skip(1).len() ==> #[trigger] s.skip(1)[j] == s[j + 1]);
        if s[0].0 != k {
            if assoc_find(s, k) is None {
                assert forall|j: int| 0 <= j < s.len() implies (#[trigger] s[j]).0 != k by {
                    if j > 0 {
                        assert(s.skip(1)[j - 1] == s[j]);
                    }
                }
            }
        }
    }
}

/// `assoc_find` yields the value at the first index carrying the key.
proof fn lemma_assoc_index<V>(s: Seq<(u64, V)>, k: u64, i: int)
    requires
        0 <= i < s.len(),
        s[i].0 == k,
        forall|j: int| 0 <= j < i ==> (#[trigger] s[j]).0 != k,
    ensures
        assoc_find(s, k) == Some(s[i].1),
    decreases i,
{
    if i > 0 {
        assert(forall|j: int| 0 <= j < i - 1 ==> #[trigger] s.skip(1)[j] == s[j + 1]);
        lemma_assoc_index(s.skip(1), k, i - 1);
    }
}

/// Removing the only entry of a key unmaps it and leaves every other key's
/// lookup unchanged.
proof fn lemma_assoc_remove<V>(s: Seq<(u64, V)>, k: u64, i: int)
    requires
        assoc_unique(s),
        0 <= i < s.len(),
        s[i].0 == k,
    ensures
        assoc_unique(s.remove(i)),
        assoc_find(s.remove(i), k) is None,
        forall|k2: u64| k2 != k ==> assoc_find(s.remove(i), k2) == assoc_find(s, k2),
{
    let t = s.remove(i);
    assert(forall|j: int| 0 <= j < i ==> #[trigger] t[j] == s[j]);
    assert(forall|j: int| i <= j < t.len() ==> #[trigger] t[j] == s[j + 1]);
    assert(assoc_unique(t)) by {
        assert forall|a: int, b: int| 0 <= a < b < t.len() implies (#[trigger] t[a]).0 != (
        #[trigger] t[b]).0 by {
            let a0: int = if a < i {
                a
            } else {
                a + 1
            };
            let b0: int = if b < i {
                b
            } else {
                b + 1
            };
            assert(t[a] == s[a0] && t[b] == s[b0]);
        }
    }
    assert(assoc_find(t, k) is None) by {
        lemma_assoc_none(t, k);
        assert forall|j: int| 0 <= j < t.len() implies (#[trigger] t[j]).0 != k by {
            let j0: int = if j < i {
                j
            } else {
                j + 1
            };
            assert(t[j] == s[j0]);
            if j0 != i && s[j0].0 == k {
                if j0 < i {
                    assert(s[j0].0 != s[i].0);
                } else {
                    assert(s[i].0 != s[j0].0);
                }
            }
        }
    }
    assert forall|k2: u64| k2 != k implies assoc_find(t, k2) == assoc_find(s, k2) by {
        lemma_assoc_none(s, k2);
        lemma_assoc_none(t, k2);
        if assoc_find(s, k2) is Some {
            lemma_assoc_first_witness(s, k2);
            let w = choose|w: int|
                0 <= w < s.len() && (#[trigger] s[w]).0 == k2 && (forall|j: int|
                    0 <= j < w ==> (#[trigger] s[j]).0 != k2);
            lemma_assoc_index(s, k2, w);
            let w1: int = if w < i {
                w
            } else {
                w - 1
            };
            assert(t[w1] == s[w]);
            assert forall|j: int| 0 <= j < w1 implies (#[trigger] t[j]).0 != k2 by {
                let j0: int = if j < i {
                    j
                } else {
                    j + 1
                };
                assert(t[j] == s[j0]);
            }
            lemma_assoc_index(t, k2, w1);
        } else {
            assert forall|j: int| 0 <= j < t.len() implies (#[trigger] t[j]).0 != k2 by {
                let j0: int = if j < i {
                    j
                } else {
                    j + 1
                };
                assert(t[j] == s[j0]);
            }
        }
    }
}

/// A `Some` lookup has a first witness index.
proof fn lemma_assoc_first_witness<V>(s: Seq<(u64, V)>, k: u64)
    requires
        assoc_find(s, k) is Some,
    ensures
        exists|w: int|
            0 <= w < s.len() && (#[trigger] s[w]).0 == k && (forall|j: int|
                0 <= j < w ==> (#[trigger] s[j]).0 != k),
    decreases s.len(),
{
    if s[0].0 == k {
        assert(0 <= 0 < s.len() && s[0].0 == k && (forall|j: int|
            0 <= j < 0 ==> (#[trigger] s[j]).0 != k));
    } else {
        lemma_assoc_first_witness(s.skip(1), k);
        let w = choose|w: int|
            0 <= w < s.skip(1).len() && (#[trigger] s.skip(1)[w]).0 == k && (forall|j: int|
                0 <= j < w ==> (#[trigger] s.skip(1)[j]).0 != k);
        assert(s.skip(1)[w] == s[w + 1]);
        assert forall|j: int| 0 <= j < w + 1 implies (#[trigger] s[j]).0 != k by {
            if j > 0 {
                assert(s.skip(1)[j - 1] == s[j]);
            }
        }
        assert(0 <= w + 1 < s.len() && s[w + 1].0 == k);
    }
}

/// Appending a pair for an unmapped key maps it and keeps keys unique.
proof fn lemma_assoc_push<V>(s: Seq<(u64, V)>, k: u64, v: V)
    requires
        assoc_unique(s),
        assoc_find(s, k) is None,
    ensures
        assoc_unique(s.push((k, v))),
        assoc_find(s.push((k, v)), k) == Some(v),
    decreases s.len(),
{
    lemma_assoc_none(s, k);
    assert(assoc_unique(s.push((k, v)))) by {
        assert forall|a: int, b: int| 0 <= a < b < s.push((k, v)).len() implies (#[trigger] s.push(
            (k, v),
        )[a]).0 != (#[trigger] s.push((k, v))[b]).0 by {
            if b == s.len() {
                assert(s.push((k, v))[a] == s[a] && s.push((k, v))[b] == (k, v));
            } else {
                assert(s.push((k, v))[a] == s[a] && s.push((k, v))[b] == s[b]);
            }
        }
    }
    if s.len() == 0 {
        assert(s.push((k, v))[0] == (k, v));
    } else {
        assert(s.push((k, v))[0] == s[0]);
        assert(s.push((k, v)).skip(1) =~= s.skip(1).push((k, v)));
        assert(forall|j: int| 0 <= j < s.skip(1).len() ==> #[trigger] s.skip(1)[j] == s[j + 1]);
        assert(assoc_unique(s.skip(1))) by {
            assert forall|a: int, b: int| 0 <= a < b < s.skip(1).len() implies (#[trigger] s.skip(
                1,
            )[a]).0 != (#[trigger] s.skip(1)[b]).0 by {
                assert(s.skip(1)[a] == s[a + 1] && s.skip(1)[b] == s[b + 1]);
            }
        }
        lemma_assoc_push(s.skip(1), k, v);
    }
}

/// Appending a pair leaves every other key's lookup unchanged.
proof fn lemma_assoc_push_other<V>(s: Seq<(u64, V)>, k: u64, v: V, k2: u64)
    requires
        k2 != k,
    ensures
        assoc_find(s.push((k, v)), k2) == assoc_find(s, k2),
    decreases s.len(),
{
    if s.len() == 0 {
        assert(s.push((k, v))[0] == (k, v));
        assert(s.push((k, v)).skip(1) =~= Seq::<(u64, V)>::empty());
        assert(assoc_find(s.push((k, v)).skip(1), k2) is None);
        assert(assoc_find(s.push((k, v)), k2) is None);
    } else {
        assert(s.push((k, v))[0] == s[0]);
        assert(s.push((k, v)).skip(1) =~= s.skip(1).push((k, v)));
        lemma_assoc_push_other(s.skip(1), k, v, k2);
        if s[0].0 == k2 {
            assert(assoc_find(s.push((k, v)), k2) == Some(s[0].1));
        } else {
            assert(assoc_find(s.push((k, v)), k2) == assoc_find(s.skip(1).push((k, v)), k2));
        }
    }
}

} // verus!
