//! Keyed storage in which every key has a value: a key that was never
//! written holds the table's blank value.

use crate::address::Address;
use crate::primitives::U256;
use vstd::prelude::*;

verus! {

/// A value that can serve as a key: equal keys can be told from unequal ones.
pub trait Key: Sized {
    fn same(&self, other: &Self) -> (r: bool)
        ensures
            r == (*self == *other),
    ;
}

impl Key for Address {
    fn same(&self, other: &Address) -> (r: bool) {
        *self == *other
    }
}

impl Key for U256 {
    fn same(&self, other: &U256) -> (r: bool) {
        *self == *other
    }
}

impl<A: Key, B: Key> Key for (A, B) {
    fn same(&self, other: &(A, B)) -> (r: bool) {
        self.0.same(&other.0) && self.1.same(&other.1)
    }
}

impl<A: Key, B: Key, C: Key> Key for (A, B, C) {
    fn same(&self, other: &(A, B, C)) -> (r: bool) {
        self.0.same(&other.0) && self.1.same(&other.1) && self.2.same(&other.2)
    }
}

/// The sum of `f` over a list of entries.
pub open spec fn sum_entries<K, V>(entries: Seq<(K, V)>, f: spec_fn(K, V) -> nat) -> nat
    decreases entries.len(),
{
    if entries.len() == 0 {
        0
    } else {
        sum_entries(entries.drop_last(), f) + f(entries.last().0, entries.last().1)
    }
}

proof fn lemma_sum_update<K, V>(entries: Seq<(K, V)>, f: spec_fn(K, V) -> nat, i: int, e: (K, V))
    requires
        0 <= i < entries.len(),
    ensures
        sum_entries(entries.update(i, e), f) + f(entries[i].0, entries[i].1) == sum_entries(
            entries,
            f,
        ) + f(e.0, e.1),
    decreases entries.len(),
{
    let after = entries.update(i, e);
    if i == entries.len() - 1 {
        assert(after.drop_last() =~= entries.drop_last());
    } else {
        lemma_sum_update(entries.drop_last(), f, i, e);
        assert(after.drop_last() =~= entries.drop_last().update(i, e));
    }
}

proof fn lemma_sum_covers<K, V>(entries: Seq<(K, V)>, f: spec_fn(K, V) -> nat, i: int)
    requires
        0 <= i < entries.len(),
    ensures
        f(entries[i].0, entries[i].1) <= sum_entries(entries, f),
    decreases entries.len(),
{
    if i < entries.len() - 1 {
        lemma_sum_covers(entries.drop_last(), f, i);
    }
}

proof fn lemma_sum_covers_two<K, V>(
    entries: Seq<(K, V)>,
    f: spec_fn(K, V) -> nat,
    i: int,
    j: int,
)
    requires
        0 <= i < j < entries.len(),
    ensures
        f(entries[i].0, entries[i].1) + f(entries[j].0, entries[j].1) <= sum_entries(entries, f),
    decreases entries.len(),
{
    if j < entries.len() - 1 {
        lemma_sum_covers_two(entries.drop_last(), f, i, j);
    } else {
        lemma_sum_covers(entries.drop_last(), f, i);
    }
}

proof fn lemma_sum_at_most_len<K, V>(entries: Seq<(K, V)>, f: spec_fn(K, V) -> nat)
    requires
        forall|k: K, v: V| #[trigger] f(k, v) <= 1,
    ensures
        sum_entries(entries, f) <= entries.len(),
    decreases entries.len(),
{
    if entries.len() > 0 {
        lemma_sum_at_most_len(entries.drop_last(), f);
    }
}

/// The sum of what a map holds under the keys of a list.
pub open spec fn sum_at<K>(keys: Seq<K>, amounts: Map<K, nat>) -> nat
    decreases keys.len(),
{
    if keys.len() == 0 {
        0
    } else {
        sum_at(keys.drop_last(), amounts) + amounts[keys.last()]
    }
}

proof fn lemma_sum_by_keys<K, V>(
    entries: Seq<(K, V)>,
    f: spec_fn(K, V) -> nat,
    amounts: Map<K, nat>,
)
    requires
        forall|i: int| 0 <= i < entries.len() ==> amounts[entries[i].0] == f(
            entries[i].0,
            entries[i].1,
        ),
    ensures
        sum_entries(entries, f) == sum_at(entries.map_values(|e: (K, V)| e.0), amounts),
    decreases entries.len(),
{
    let keys = entries.map_values(|e: (K, V)| e.0);
    if entries.len() > 0 {
        lemma_sum_by_keys(entries.drop_last(), f, amounts);
        assert(keys.drop_last() =~= entries.drop_last().map_values(|e: (K, V)| e.0));
    }
}

/// Whether `f` counts nothing for a key that holds the blank value.
pub open spec fn vanishes<K, V>(f: spec_fn(K, V) -> nat, blank: V) -> bool {
    forall|k: K| #[trigger] f(k, blank) == 0
}

/// A table from keys to values. Its view is a map in which every key is
/// present; all but finitely many keys hold the blank value.
#[derive(Clone, Debug)]
pub struct Table<K, V> {
    entries: Vec<(K, V)>,
    blank: V,
}

impl<K: Key + Copy, V: Copy> View for Table<K, V> {
    type V = Map<K, V>;

    closed spec fn view(&self) -> Map<K, V> {
        Map::total(|k: K| self.value_of(k))
    }
}

impl<K: Key + Copy, V: Copy> Table<K, V> {
    /// No key is recorded twice.
    pub closed spec fn wf(&self) -> bool {
        forall|i: int, j: int|
            0 <= i < j < self.entries@.len() ==> self.entries@[i].0 != self.entries@[j].0
    }

    /// The value of a key that was never written.
    pub closed spec fn blank(&self) -> V {
        self.blank
    }

    /// The number of keys that were ever written.
    pub closed spec fn size(&self) -> nat {
        self.entries@.len()
    }

    /// The sum of `f` over the keys that were ever written. Where `f`
    /// vanishes on the blank value this is the sum of `f` over all keys.
    pub closed spec fn tally(&self, f: spec_fn(K, V) -> nat) -> nat {
        sum_entries(self.entries@, f)
    }

    spec fn recorded(&self, k: K) -> bool {
        exists|i: int| 0 <= i < self.entries@.len() && self.entries@[i].0 == k
    }

    spec fn place_of(&self, k: K) -> int {
        choose|i: int| 0 <= i < self.entries@.len() && self.entries@[i].0 == k
    }

    spec fn value_of(&self, k: K) -> V {
        if self.recorded(k) {
            self.entries@[self.place_of(k)].1
        } else {
            self.blank
        }
    }

    /// The keys that were ever written, in the order in which they were
    /// first written.
    pub closed spec fn keys(&self) -> Seq<K> {
        self.entries@.map_values(|e: (K, V)| e.0)
    }

    /// The keys that were written are all different, every other key holds
    /// the blank value, and a sum over the table is the sum over those keys
    /// of what the view holds under them.
    pub proof fn lemma_tally_by_keys(&self, f: spec_fn(K, V) -> nat, amounts: Map<K, nat>)
        requires
            self.wf(),
            forall|k: K| amounts[k] == #[trigger] f(k, self@[k]),
        ensures
            self.keys().no_duplicates(),
            self.keys().len() == self.size(),
            forall|k: K| !self.keys().contains(k) ==> #[trigger] self@[k] == self.blank(),
            self.tally(f) == sum_at(self.keys(), amounts),
    {
        assert forall|i: int| 0 <= i < self.entries@.len() implies amounts[self.entries@[i].0]
            == f(self.entries@[i].0, self.entries@[i].1) by {
            self.lemma_value_at(i);
        }
        lemma_sum_by_keys(self.entries@, f, amounts);
        assert forall|k: K| !self.keys().contains(k) implies #[trigger] self@[k]
            == self.blank() by {
            if self.recorded(k) {
                let i = self.place_of(k);
                assert(self.keys()[i] == k);
            }
        }
    }

    /// The view has every key, and the blank value wherever nothing was written.
    pub proof fn lemma_view_total(&self)
        ensures
            forall|k: K| self@.contains_key(k),
    {
    }

    proof fn lemma_value_at(&self, i: int)
        requires
            self.wf(),
            0 <= i < self.entries@.len(),
        ensures
            self@[self.entries@[i].0] == self.entries@[i].1,
    {
        let k = self.entries@[i].0;
        assert(self.recorded(k));
        let j = self.place_of(k);
        assert(i == j);
    }

    /// A sum over the table is at least the share of any one key.
    pub proof fn lemma_tally_covers(&self, f: spec_fn(K, V) -> nat, k: K)
        requires
            self.wf(),
            vanishes(f, self.blank()),
        ensures
            f(k, self@[k]) <= self.tally(f),
    {
        if self.recorded(k) {
            lemma_sum_covers(self.entries@, f, self.place_of(k));
        }
    }

    /// A sum over the table is at least the shares of any two keys together.
    pub proof fn lemma_tally_covers_two(&self, f: spec_fn(K, V) -> nat, a: K, b: K)
        requires
            self.wf(),
            vanishes(f, self.blank()),
            a != b,
        ensures
            f(a, self@[a]) + f(b, self@[b]) <= self.tally(f),
    {
        if self.recorded(a) && self.recorded(b) {
            let i = self.place_of(a);
            let j = self.place_of(b);
            if i < j {
                lemma_sum_covers_two(self.entries@, f, i, j);
            } else {
                lemma_sum_covers_two(self.entries@, f, j, i);
            }
        } else if self.recorded(a) {
            lemma_sum_covers(self.entries@, f, self.place_of(a));
        } else if self.recorded(b) {
            lemma_sum_covers(self.entries@, f, self.place_of(b));
        }
    }

    /// A sum of shares that are each at most one is at most the number of
    /// keys that were written.
    pub proof fn lemma_tally_at_most_size(&self, f: spec_fn(K, V) -> nat)
        requires
            forall|k: K, v: V| #[trigger] f(k, v) <= 1,
        ensures
            self.tally(f) <= self.size(),
    {
        lemma_sum_at_most_len(self.entries@, f);
    }

    /// The keys that were written can be counted in a machine word.
    pub proof fn lemma_size_bounded(&self)
        ensures
            self.size() <= usize::MAX,
    {
        assert(self.entries.len() == self.entries@.len());
    }

    /// An empty table: every key holds `blank`.
    pub fn new(blank: V) -> (t: Self)
        ensures
            t.wf(),
            t.blank() == blank,
            t.size() == 0,
            t@ == Map::total(|k: K| blank),
            forall|f: spec_fn(K, V) -> nat| #[trigger] t.tally(f) == 0,
    {
        let t = Table { entries: Vec::new(), blank };
        assert(t@ =~= Map::total(|k: K| blank));
        t
    }

    /// The number of keys that were ever written.
    pub fn len(&self) -> (n: usize)
        ensures
            n == self.size(),
    {
        self.entries.len()
    }

    /// A second table that holds what this one holds.
    pub fn duplicate(&self) -> (t: Self)
        ensures
            t@ == self@,
            t.wf() == self.wf(),
            t.blank() == self.blank(),
            t.size() == self.size(),
            forall|f: spec_fn(K, V) -> nat| #[trigger] t.tally(f) == self.tally(f),
    {
        let mut entries: Vec<(K, V)> = Vec::new();
        let mut i: usize = 0;
        while i < self.entries.len()
            invariant
                i <= self.entries@.len(),
                entries@ == self.entries@.subrange(0, i as int),
            decreases self.entries@.len() - i,
        {
            entries.push(self.entries[i]);
            assert(self.entries@.subrange(0, i + 1) =~= self.entries@.subrange(0, i as int).push(
                self.entries@[i as int],
            ));
            i = i + 1;
        }
        assert(self.entries@.subrange(0, self.entries@.len() as int) =~= self.entries@);
        let t = Table { entries, blank: self.blank };
        assert(t.entries@ == self.entries@);
        assert(t@ =~= self@) by {
            assert forall|k: K| t.value_of(k) == self.value_of(k) by {
                assert(t.recorded(k) == self.recorded(k));
                assert(t.place_of(k) == self.place_of(k));
            }
        }
        t
    }

    fn find(&self, k: &K) -> (r: Option<usize>)
        ensures
            match r {
                Some(i) => i < self.entries@.len() && self.entries@[i as int].0 == *k,
                None => !self.recorded(*k),
            },
    {
        let mut i: usize = 0;
        while i < self.entries.len()
            invariant
                i <= self.entries@.len(),
                forall|j: int| 0 <= j < i ==> self.entries@[j].0 != *k,
            decreases self.entries@.len() - i,
        {
            if self.entries[i].0.same(k) {
                return Some(i);
            }
            i = i + 1;
        }
        None
    }

    /// The value that `k` holds.
    pub fn get(&self, k: &K) -> (v: V)
        requires
            self.wf(),
        ensures
            v == self@[*k],
    {
        match self.find(k) {
            Some(i) => {
                proof {
                    self.lemma_value_at(i as int);
                }
                self.entries[i].1
            },
            None => self.blank,
        }
    }

    /// Writes `v` under `k`, over whatever `k` held.
    pub fn set(&mut self, k: K, v: V)
        requires
            old(self).wf(),
        ensures
            final(self).wf(),
            final(self).blank() == old(self).blank(),
            final(self)@ == old(self)@.insert(k, v),
            old(self).size() <= final(self).size() <= old(self).size() + 1,
            forall|f: spec_fn(K, V) -> nat|
                vanishes(f, old(self).blank()) ==> #[trigger] final(self).tally(f) + f(
                    k,
                    old(self)@[k],
                ) == old(self).tally(f) + f(k, v),
    {
        let ghost before = *self;
        match self.find(&k) {
            Some(i) => {
                proof {
                    before.lemma_value_at(i as int);
                }
                self.entries[i] = (k, v);
                proof {
                    assert forall|f: spec_fn(K, V) -> nat|
                        vanishes(f, before.blank()) implies #[trigger] self.tally(f) + f(
                        k,
                        before@[k],
                    ) == before.tally(f) + f(k, v) by {
                        lemma_sum_update(before.entries@, f, i as int, (k, v));
                    }
                    assert forall|q: K| self.value_of(q) == before@.insert(k, v)[q] by {
                        if q == k {
                            self.lemma_value_at(i as int);
                        } else if before.recorded(q) {
                            let j = before.place_of(q);
                            assert(self.entries@[j].0 == q);
                            self.lemma_value_at(j);
                        } else {
                            assert(!self.recorded(q)) by {
                                if self.recorded(q) {
                                    let j = self.place_of(q);
                                    assert(before.entries@[j].0 == q);
                                }
                            }
                        }
                    }
                }
            },
            None => {
                self.entries.push((k, v));
                proof {
                    let n = before.entries@.len() as int;
                    assert(self.entries@.drop_last() =~= before.entries@);
                    assert forall|f: spec_fn(K, V) -> nat|
                        vanishes(f, before.blank()) implies #[trigger] self.tally(f) + f(
                        k,
                        before@[k],
                    ) == before.tally(f) + f(k, v) by {
                        assert(f(k, before.blank()) == 0);
                    }
                    assert forall|q: K| self.value_of(q) == before@.insert(k, v)[q] by {
                        if q == k {
                            self.lemma_value_at(n);
                        } else if before.recorded(q) {
                            let j = before.place_of(q);
                            assert(self.entries@[j].0 == q);
                            self.lemma_value_at(j);
                        } else {
                            assert(!self.recorded(q)) by {
                                if self.recorded(q) {
                                    let j = self.place_of(q);
                                    assert(before.entries@[j].0 == q);
                                }
                            }
                        }
                    }
                }
            },
        }
        assert(self@ =~= before@.insert(k, v));
    }
}

} // verus!
