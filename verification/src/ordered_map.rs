//! A small association map that keeps its entries in insertion order.
//!
//! Lookups scan for the first entry whose key equals the one sought;
//! inserting over an existing key replaces that entry's value in place, so
//! iteration order never changes once a key is present. The contracts speak
//! through the key type's equality specification and are conditioned on
//! that equality obeying it.

use vstd::prelude::*;
use vstd::std_specs::cmp::PartialEqSpec;

verus! {

/// The position of the first entry whose key equals `k`, or `-1`.
pub open spec fn find_index<K: PartialEq, V>(s: Seq<(K, V)>, k: K) -> int
    decreases s.len(),
{
    if s.len() == 0 {
        -1
    } else if s[0].0.eq_spec(&k) {
        0
    } else {
        let r = find_index(s.drop_first(), k);
        if r < 0 {
            -1
        } else {
            r + 1
        }
    }
}

proof fn lemma_find_index_bounds<K: PartialEq, V>(s: Seq<(K, V)>, k: K)
    ensures
        find_index(s, k) >= 0 ==> {
            &&& find_index(s, k) < s.len()
            &&& s[find_index(s, k)].0.eq_spec(&k)
            &&& forall|j: int| 0 <= j < find_index(s, k) ==> !(#[trigger] s[j]).0.eq_spec(&k)
        },
        find_index(s, k) < 0 ==> forall|j: int|
            0 <= j < s.len() ==> !(#[trigger] s[j]).0.eq_spec(&k),
    decreases s.len(),
{
    if s.len() > 0 {
        lemma_find_index_bounds(s.drop_first(), k);
        assert(forall|j: int| 1 <= j < s.len() ==> #[trigger] s[j] == s.drop_first()[j - 1]);
    }
}

/// An association list in insertion order.
#[derive(Clone, Debug, PartialEq, Eq, Hash)]
pub struct OrderedMap<K, V>(pub Vec<(K, V)>);

impl<K, V> Default for OrderedMap<K, V> {
    fn default() -> (r: Self)
        ensures
            r.0@ == Seq::<(K, V)>::empty(),
    {
        OrderedMap(Vec::new())
    }
}

impl<K: PartialEq, V> OrderedMap<K, V> {
    /// An empty map.
    pub fn new() -> (r: Self)
        ensures
            r.0@ == Seq::<(K, V)>::empty(),
    {
        OrderedMap(Vec::new())
    }

    /// The value of the first entry whose key equals `k`, if any.
    pub fn get(&self, k: &K) -> (r: Option<&V>)
        ensures
            K::obeys_eq_spec() ==> match r {
                Some(v) => {
                    &&& find_index(self.0@, *k) >= 0
                    &&& *v == self.0@[find_index(self.0@, *k)].1
                },
                None => find_index(self.0@, *k) < 0,
            },
    {
        let n = self.0.len();
        let mut i: usize = 0;
        proof {
            lemma_find_index_bounds(self.0@, *k);
        }
        while i < n
            invariant
                0 <= i <= n,
                n == self.0@.len(),
                K::obeys_eq_spec() ==> forall|j: int|
                    0 <= j < i ==> !(#[trigger] self.0@[j]).0.eq_spec(k),
                K::obeys_eq_spec() ==> (find_index(self.0@, *k) >= 0 ==> {
                    &&& find_index(self.0@, *k) < n
                    &&& self.0@[find_index(self.0@, *k)].0.eq_spec(k)
                    &&& forall|j: int| 0 <= j < find_index(self.0@, *k)
                        ==> !(#[trigger] self.0@[j]).0.eq_spec(k)
                }),
                K::obeys_eq_spec() ==> (find_index(self.0@, *k) < 0 ==> forall|j: int|
                    0 <= j < n ==> !(#[trigger] self.0@[j]).0.eq_spec(k)),
            decreases n - i,
        {
            if self.0[i].0 == *k {
                return Some(&self.0[i].1);
            }
            i = i + 1;
        }
        None
    }

    /// Replace the value of the first entry whose key equals `k`, or append
    /// a new entry at the back.
    pub fn insert(&mut self, k: K, v: V)
        ensures
            K::obeys_eq_spec() ==> ({
                let idx = find_index(old(self).0@, k);
                if idx >= 0 {
                    final(self).0@ == old(self).0@.update(idx, (old(self).0@[idx].0, v))
                } else {
                    final(self).0@ == old(self).0@.push((k, v))
                }
            }),
    {
        let ghost pre = self.0@;
        let n = self.0.len();
        let mut i: usize = 0;
        proof {
            lemma_find_index_bounds(pre, k);
        }
        while i < n
            invariant
                0 <= i <= n,
                n == self.0@.len(),
                self.0@ == pre,
                pre == old(self).0@,
                K::obeys_eq_spec() ==> forall|j: int|
                    0 <= j < i ==> !(#[trigger] pre[j]).0.eq_spec(&k),
                K::obeys_eq_spec() ==> (find_index(pre, k) >= 0 ==> {
                    &&& find_index(pre, k) < n
                    &&& pre[find_index(pre, k)].0.eq_spec(&k)
                    &&& forall|j: int| 0 <= j < find_index(pre, k)
                        ==> !(#[trigger] pre[j]).0.eq_spec(&k)
                }),
                K::obeys_eq_spec() ==> (find_index(pre, k) < 0 ==> forall|j: int|
                    0 <= j < n ==> !(#[trigger] pre[j]).0.eq_spec(&k)),
            decreases n - i,
        {
            let hit = self.0[i].0 == k;
            if hit {
                proof {
                    if K::obeys_eq_spec() {
                        let idx = find_index(pre, k);
                        assert(pre[i as int].0.eq_spec(&k));
                        assert(idx >= 0) by {
                            if idx < 0 {
                                assert(!(pre[i as int]).0.eq_spec(&k));
                            }
                        }
                        assert(idx == i) by {
                            if idx < i {
                                assert(!(pre[idx]).0.eq_spec(&k));
                            }
                            if idx > i {
                                assert(!(pre[i as int]).0.eq_spec(&k));
                            }
                        }
                    }
                }
                self.0[i].1 = v;
                proof {
                    if K::obeys_eq_spec() {
                        let idx = find_index(pre, k);
                        assert(self.0@ =~= pre.update(idx, (pre[idx].0, v)));
                    }
                }
                return ;
            }
            i = i + 1;
        }
        self.0.push((k, v));
    }

    /// The value for `k`, created with `f` when no entry exists yet; hands
    /// back a place to read or change it, and a change made through that
    /// place lands on exactly that entry.
    pub fn get_or_insert_with<F: FnOnce() -> V>(&mut self, k: K, f: F) -> (element: &mut V)
        requires
            call_requires(f, ()),
        ensures
            K::obeys_eq_spec() ==> ({
                let idx = find_index(old(self).0@, k);
                if idx >= 0 {
                    &&& *element == old(self).0@[idx].1
                    &&& final(self).0@ == old(self).0@.update(
                        idx,
                        (old(self).0@[idx].0, *final(element)),
                    )
                } else {
                    &&& call_ensures(f, (), *element)
                    &&& final(self).0@ == old(self).0@.push((k, *final(element)))
                }
            }),
    {
        let ghost pre = self.0@;
        let n = self.0.len();
        let mut i: usize = 0;
        proof {
            lemma_find_index_bounds(pre, k);
        }
        while i < n
            invariant
                0 <= i <= n,
                n == self.0@.len(),
                self.0@ == pre,
                pre == old(self).0@,
                K::obeys_eq_spec() ==> forall|j: int|
                    0 <= j < i ==> !(#[trigger] pre[j]).0.eq_spec(&k),
                K::obeys_eq_spec() ==> (find_index(pre, k) >= 0 ==> {
                    &&& find_index(pre, k) < n
                    &&& pre[find_index(pre, k)].0.eq_spec(&k)
                    &&& forall|j: int| 0 <= j < find_index(pre, k)
                        ==> !(#[trigger] pre[j]).0.eq_spec(&k)
                }),
                K::obeys_eq_spec() ==> (find_index(pre, k) < 0 ==> forall|j: int|
                    0 <= j < n ==> !(#[trigger] pre[j]).0.eq_spec(&k)),
            decreases n - i,
        {
            let hit = self.0[i].0 == k;
            if hit {
                proof {
                    if K::obeys_eq_spec() {
                        let idx = find_index(pre, k);
                        assert(pre[i as int].0.eq_spec(&k));
                        assert(idx >= 0) by {
                            if idx < 0 {
                                assert(!(pre[i as int]).0.eq_spec(&k));
                            }
                        }
                        assert(idx == i) by {
                            if idx < i {
                                assert(!(pre[idx]).0.eq_spec(&k));
                            }
                            if idx > i {
                                assert(!(pre[i as int]).0.eq_spec(&k));
                            }
                        }
                    }
                }
                return &mut self.0[i].1;
            }
            i = i + 1;
        }
        let v = f();
        self.0.push((k, v));
        let last = self.0.len() - 1;
        &mut self.0[last].1
    }
}

} // verus!
