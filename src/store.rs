//! The embedding store: a mapping from path keys to values (embeddings), kept as a
//! vector of entries sorted by key, each key present once.
use vstd::prelude::*;
use crate::keys::{compare_keys, key_lt, lemma_key_lt_total, lemma_key_lt_transitive};

verus! {

/// The mapping that results from inserting `s`'s entries one after another into an
/// empty mapping (a later entry replaces an earlier one with the same key).
pub open spec fn entries_map<V>(s: Seq<(String, V)>) -> Map<Seq<char>, V>
    decreases s.len(),
{
    if s.len() == 0 {
        Map::empty()
    } else {
        entries_map(s.drop_last()).insert(s.last().0@, s.last().1)
    }
}

/// Keys strictly increase along `s`.
pub open spec fn sorted_keys<V>(s: Seq<(String, V)>) -> bool {
    forall|i: int, j: int| 0 <= i < j < s.len() ==> key_lt(#[trigger] s[i].0@, #[trigger] s[j].0@)
}

/// No key occurs twice in `s`.
pub open spec fn unique_keys<V>(s: Seq<(String, V)>) -> bool {
    forall|i: int, j: int| 0 <= i < s.len() && 0 <= j < s.len() && i != j ==> #[trigger] s[i].0@ != #[trigger] s[j].0@
}

pub proof fn lemma_sorted_unique<V>(s: Seq<(String, V)>)
    requires
        sorted_keys(s),
    ensures
        unique_keys(s),
{
    assert forall|i: int, j: int| 0 <= i < s.len() && 0 <= j < s.len() && i != j implies #[trigger] s[i].0@ != #[trigger] s[j].0@ by {
        lemma_key_lt_total(s[i].0@, s[j].0@);
    }
}

/// With unique keys, the mapping holds exactly the entries of `s`.
pub proof fn lemma_entries_map<V>(s: Seq<(String, V)>)
    requires
        unique_keys(s),
    ensures
        forall|i: int| 0 <= i < s.len() ==> entries_map(s).contains_key(#[trigger] s[i].0@) && entries_map(s)[s[i].0@] == s[i].1,
        forall|k: Seq<char>| entries_map(s).contains_key(k) ==> exists|i: int| 0 <= i < s.len() && s[i].0@ == k,
    decreases s.len(),
{
    if s.len() > 0 {
        let t = s.drop_last();
        assert(unique_keys(t)) by {
            assert forall|i: int, j: int| 0 <= i < t.len() && 0 <= j < t.len() && i != j implies #[trigger] t[i].0@ != #[trigger] t[j].0@ by {
                assert(t[i] == s[i] && t[j] == s[j]);
            }
        }
        lemma_entries_map(t);
        assert(entries_map(s) == entries_map(t).insert(s.last().0@, s.last().1));
        assert forall|i: int| 0 <= i < s.len() implies entries_map(s).contains_key(#[trigger] s[i].0@) && entries_map(s)[s[i].0@] == s[i].1 by {
            if i < s.len() - 1 {
                assert(t[i] == s[i]);
                assert(s[i].0@ != s[s.len() - 1].0@);
            }
        }
        assert forall|k: Seq<char>| entries_map(s).contains_key(k) implies exists|i: int| 0 <= i < s.len() && s[i].0@ == k by {
            if k != s.last().0@ {
                assert(entries_map(t).contains_key(k));
                let i = choose|i: int| 0 <= i < t.len() && t[i].0@ == k;
                assert(s[i] == t[i]);
            } else {
                assert(s[s.len() - 1].0@ == k);
            }
        }
    }
}

/// Round trip: a store `t` rebuilt from the entries of a store `s` (what
/// `Store::from_entries` promises for the list that `s.into_entries()` hands out)
/// is equal to `s`, as a mapping and entry for entry.
pub proof fn lemma_store_round_trip<V>(s: Store<V>, t: Store<V>)
    requires
        s.wf(),
        t.wf(),
        t@ == entries_map(s.entries_seq()),
        sorted_keys(s.entries_seq()) ==> t.entries_seq() == s.entries_seq(),
    ensures
        t@ == s@,
        t.entries_seq() == s.entries_seq(),
{
    s.lemma_view();
}

/// A mapping from string keys to values, ordered by key.
pub struct Store<V> {
    entries: Vec<(String, V)>,
}

impl<V> View for Store<V> {
    type V = Map<Seq<char>, V>;

    open spec fn view(&self) -> Map<Seq<char>, V> {
        entries_map(self.entries_seq())
    }
}

impl<V> Store<V> {
    /// The entries, in key order.
    pub closed spec fn entries_seq(&self) -> Seq<(String, V)> {
        self.entries@
    }

    /// The keys, in key order.
    pub open spec fn key_seq(&self) -> Seq<Seq<char>> {
        self.entries_seq().map_values(|e: (String, V)| e.0@)
    }

    pub closed spec fn wf(&self) -> bool {
        sorted_keys(self.entries@)
    }

    pub proof fn lemma_view(&self)
        requires
            self.wf(),
        ensures
            sorted_keys(self.entries_seq()),
            unique_keys(self.entries_seq()),
            self@ == entries_map(self.entries_seq()),
            forall|i: int| 0 <= i < self.entries_seq().len() ==> self@.contains_key(#[trigger] self.entries_seq()[i].0@)
                && self@[self.entries_seq()[i].0@] == self.entries_seq()[i].1,
            forall|k: Seq<char>| self@.contains_key(k) ==> exists|i: int| 0 <= i < self.entries_seq().len() && self.entries_seq()[i].0@ == k,
    {
        lemma_sorted_unique(self.entries@);
        lemma_entries_map(self.entries@);
    }

    /// An empty store.
    pub fn new() -> (s: Self)
        ensures
            s.wf(),
            s@ == Map::<Seq<char>, V>::empty(),
            s.entries_seq().len() == 0,
    {
        Store { entries: Vec::new() }
    }

    /// Number of entries.
    pub fn len(&self) -> (n: usize)
        requires
            self.wf(),
        ensures
            n == self.entries_seq().len(),
            n == self@.dom().len(),
    {
        proof {
            self.lemma_dom_len();
        }
        self.entries.len()
    }

    proof fn lemma_dom_len(&self)
        requires
            self.wf(),
        ensures
            self@.dom().len() == self.entries_seq().len(),
            self@.dom().finite(),
    {
        let s = self.entries@;
        lemma_sorted_unique(s);
        lemma_entries_map(s);
        let ks = self.key_seq();
        assert(ks.no_duplicates()) by {
            assert forall|i: int, j: int| 0 <= i < ks.len() && 0 <= j < ks.len() && i != j implies ks[i] != ks[j] by {
                assert(ks[i] == s[i].0@ && ks[j] == s[j].0@);
            }
        }
        assert(ks.to_set() =~= self@.dom()) by {
            assert forall|k: Seq<char>| ks.to_set().contains(k) implies self@.dom().contains(k) by {
                let i = choose|i: int| 0 <= i < ks.len() && ks[i] == k;
                assert(ks[i] == s[i].0@);
            }
            assert forall|k: Seq<char>| self@.dom().contains(k) implies ks.to_set().contains(k) by {
                let i = choose|i: int| 0 <= i < s.len() && s[i].0@ == k;
                assert(ks[i] == k);
            }
        }
        ks.unique_seq_to_set();
    }

    /// Position of the first entry whose key does not sort before `k`.
    fn lower_bound(&self, k: &str) -> (r: (usize, bool))
        requires
            self.wf(),
        ensures
            r.0 <= self.entries_seq().len(),
            forall|j: int| 0 <= j < r.0 ==> key_lt(#[trigger] self.entries_seq()[j].0@, k@),
            forall|j: int| r.0 <= j < self.entries_seq().len() ==> !key_lt(#[trigger] self.entries_seq()[j].0@, k@),
            r.1 <==> (r.0 < self.entries_seq().len() && self.entries_seq()[r.0 as int].0@ == k@),
            !r.1 ==> forall|j: int| r.0 <= j < self.entries_seq().len() ==> key_lt(k@, #[trigger] self.entries_seq()[j].0@),
    {
        let n = self.entries.len();
        let mut i: usize = 0;
        while i < n
            invariant
                n == self.entries@.len(),
                i <= n,
                self.wf(),
                forall|j: int| 0 <= j < i ==> key_lt(#[trigger] self.entries@[j].0@, k@),
            decreases n - i,
        {
            let c = compare_keys(self.entries[i].0.as_str(), k);
            if c >= 0 {
                let found = c == 0;
                proof {
                    let s = self.entries@;
                    assert forall|j: int| i <= j < n implies !key_lt(#[trigger] s[j].0@, k@) by {
                        lemma_key_lt_total(s[i as int].0@, k@);
                        if j > i {
                            assert(key_lt(s[i as int].0@, s[j].0@));
                            lemma_key_lt_total(s[j].0@, k@);
                            if key_lt(s[j].0@, k@) {
                                lemma_key_lt_transitive(s[i as int].0@, s[j].0@, k@);
                            }
                        }
                    }
                    if !found {
                        assert forall|j: int| i <= j < n implies key_lt(k@, #[trigger] s[j].0@) by {
                            lemma_key_lt_total(s[i as int].0@, k@);
                            if j > i {
                                assert(key_lt(s[i as int].0@, s[j].0@));
                                lemma_key_lt_transitive(k@, s[i as int].0@, s[j].0@);
                            }
                        }
                    }
                }
                return (i, found);
            }
            i = i + 1;
        }
        (i, false)
    }

    /// Whether `k` has an entry.
    pub fn contains_key(&self, k: &str) -> (r: bool)
        requires
            self.wf(),
        ensures
            r == self@.contains_key(k@),
    {
        let (i, found) = self.lower_bound(k);
        proof {
            self.lemma_view();
            if !found && self@.contains_key(k@) {
                let j = choose|j: int| 0 <= j < self.entries_seq().len() && self.entries_seq()[j].0@ == k@;
                lemma_key_lt_total(k@, k@);
                if j >= i {
                    assert(key_lt(k@, self.entries_seq()[j].0@));
                } else {
                    assert(key_lt(self.entries_seq()[j].0@, k@));
                }
            }
        }
        found
    }

    /// The value stored under `k`, if any.
    pub fn get(&self, k: &str) -> (r: Option<&V>)
        requires
            self.wf(),
        ensures
            r is None <==> !self@.contains_key(k@),
            r is Some ==> *r.unwrap() == self@[k@],
    {
        let (i, found) = self.lower_bound(k);
        proof {
            self.lemma_view();
            if !found && self@.contains_key(k@) {
                let j = choose|j: int| 0 <= j < self.entries_seq().len() && self.entries_seq()[j].0@ == k@;
                lemma_key_lt_total(k@, k@);
                if j >= i {
                    assert(key_lt(k@, self.entries_seq()[j].0@));
                } else {
                    assert(key_lt(self.entries_seq()[j].0@, k@));
                }
            }
        }
        if found {
            Some(&self.entries[i].1)
        } else {
            None
        }
    }

    /// Stores `v` under `k`, replacing the value that `k` had.
    pub fn insert(&mut self, k: String, v: V)
        requires
            old(self).wf(),
        ensures
            final(self).wf(),
            final(self)@ == old(self)@.insert(k@, v),
            (forall|j: int| 0 <= j < old(self).entries_seq().len() ==> key_lt(#[trigger] old(self).entries_seq()[j].0@, k@))
                ==> final(self).entries_seq() == old(self).entries_seq().push((k, v)),
    {
        let ghost s0 = self.entries@;
        let ghost kv = k@;
        let ghost kk = k;
        let (i, found) = self.lower_bound(k.as_str());
        if found {
            self.entries.set(i, (k, v));
        } else {
            self.entries.insert(i, (k, v));
        }
        proof {
            let s1 = self.entries@;
            assert(sorted_keys(s1)) by {
                assert forall|a: int, b: int| 0 <= a < b < s1.len() implies key_lt(#[trigger] s1[a].0@, #[trigger] s1[b].0@) by {
                    if found {
                        if a != i && b != i {
                            assert(s1[a] == s0[a] && s1[b] == s0[b]);
                        }
                    } else {
                        if a < i && b < i {
                            assert(s1[a] == s0[a] && s1[b] == s0[b]);
                        } else if a < i && b > i {
                            assert(s1[a] == s0[a] && s1[b] == s0[b - 1]);
                            lemma_key_lt_transitive(s0[a].0@, kv, s0[b - 1].0@);
                        } else if a > i {
                            assert(s1[a] == s0[a - 1] && s1[b] == s0[b - 1]);
                        } else if a == i {
                            assert(s1[b] == s0[b - 1]);
                        } else {
                            assert(s1[a] == s0[a]);
                        }
                    }
                }
            }
            lemma_sorted_unique(s0);
            lemma_sorted_unique(s1);
            lemma_entries_map(s0);
            lemma_entries_map(s1);
            let m0 = entries_map(s0);
            let m1 = entries_map(s1);
            assert forall|q: Seq<char>| #[trigger] m1.contains_key(q) implies m0.insert(kv, v).contains_key(q) && m1[q] == m0.insert(kv, v)[q] by {
                let j = choose|j: int| 0 <= j < s1.len() && s1[j].0@ == q;
                if q != kv {
                    if found {
                        assert(j != i);
                        assert(s1[j] == s0[j]);
                    } else if j < i {
                        assert(s1[j] == s0[j]);
                    } else {
                        assert(j != i);
                        assert(s1[j] == s0[j - 1]);
                    }
                } else {
                    assert(s1[i as int].0@ == kv);
                }
            }
            assert forall|q: Seq<char>| #[trigger] m0.insert(kv, v).contains_key(q) implies m1.contains_key(q) by {
                if q != kv {
                    let j = choose|j: int| 0 <= j < s0.len() && s0[j].0@ == q;
                    if found || j < i {
                        assert(s1[j] == s0[j]);
                    } else {
                        assert(s1[j + 1] == s0[j]);
                    }
                } else {
                    assert(s1[i as int].0@ == kv);
                }
            }
            assert(m1 =~= m0.insert(kv, v));
            if forall|j: int| 0 <= j < s0.len() ==> key_lt(#[trigger] s0[j].0@, kv) {
                if i < s0.len() {
                    lemma_key_lt_total(kv, kv);
                    assert(key_lt(s0[i as int].0@, kv));
                }
                assert(s1 =~= s0.push((kk, v)));
            }
        }
    }

    /// The key of the entry at `i`, in key order.
    pub fn key_at(&self, i: usize) -> (r: &String)
        requires
            i < self.entries_seq().len(),
        ensures
            r@ == self.key_seq()[i as int],
    {
        &self.entries[i].0
    }

    /// The value of the entry at `i`, in key order.
    pub fn value_at(&self, i: usize) -> (r: &V)
        requires
            i < self.entries_seq().len(),
        ensures
            *r == self.entries_seq()[i as int].1,
    {
        &self.entries[i].1
    }

    /// The entries, in key order.
    pub fn into_entries(self) -> (r: Vec<(String, V)>)
        ensures
            r@ == self.entries_seq(),
    {
        self.entries
    }

    /// A store that holds what inserting `entries` one after another gives.
    pub fn from_entries(entries: Vec<(String, V)>) -> (s: Self)
        ensures
            s.wf(),
            s@ == entries_map(entries@),
            sorted_keys(entries@) ==> s.entries_seq() == entries@,
    {
        let ghost all = entries@;
        let mut s = Store::new();
        let n = entries.len();
        let mut rest = entries;
        let mut taken: usize = 0;
        while rest.len() > 0
            invariant
                s.wf(),
                n == all.len(),
                taken <= n,
                taken + rest@.len() == n,
                s@ == entries_map(all.take(taken as int)),
                rest@ == all.skip(taken as int),
                sorted_keys(all) ==> s.entries_seq() == all.take(taken as int),
            decreases rest@.len(),
        {
            let e = rest.remove(0);
            proof {
                assert(e == all[taken as int]);
                assert(all.take(taken + 1).drop_last() =~= all.take(taken as int));
                assert(rest@ =~= all.skip(taken + 1));
                if sorted_keys(all) {
                    assert(all.take(taken + 1) =~= all.take(taken as int).push(e));
                    assert forall|j: int| 0 <= j < s.entries_seq().len() implies key_lt(#[trigger] s.entries_seq()[j].0@, e.0@) by {
                        assert(s.entries_seq()[j] == all[j]);
                    }
                }
            }
            s.insert(e.0, e.1);
            taken = taken + 1;
        }
        proof {
            assert(all.take(n as int) =~= all);
        }
        s
    }
}

} // verus!
