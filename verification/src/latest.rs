//! The latest record of each contract, found again by root, expiration, strike and right.

use vstd::prelude::*;

verus! {

/// What identifies a contract: root, expiration, strike and right.
#[derive(Debug, Clone)]
pub struct ContractKey {
    pub root: String,
    pub expiration: i32,
    pub strike: i64,
    pub right: String,
}

impl View for ContractKey {
    type V = (Seq<char>, i32, i64, Seq<char>);

    open spec fn view(&self) -> (Seq<char>, i32, i64, Seq<char>) {
        (self.root@, self.expiration, self.strike, self.right@)
    }
}

impl ContractKey {
    /// Whether two keys name the same contract.
    pub fn same_contract(&self, other: &ContractKey) -> (r: bool)
        ensures
            r == (self@ == other@),
    {
        self.root == other.root && self.expiration == other.expiration && self.strike
            == other.strike && self.right == other.right
    }
}

/// A table from contracts to their latest record.
pub struct LatestMap<V> {
    entries: Vec<(ContractKey, V)>,
}

/// Some position of `entries` whose key is `k`.
spec fn position_of<V>(entries: Seq<(ContractKey, V)>, k: (Seq<char>, i32, i64, Seq<char>)) -> int {
    choose|i: int| 0 <= i < entries.len() && entries[i].0@ == k
}

/// No contract has two entries.
spec fn keys_distinct<V>(entries: Seq<(ContractKey, V)>) -> bool {
    forall|i: int, j: int|
        0 <= i < entries.len() && 0 <= j < entries.len() && i != j ==> entries[i].0@
            != entries[j].0@
}

/// The table that a sequence of entries stands for.
spec fn entries_map<V>(entries: Seq<(ContractKey, V)>) -> Map<(Seq<char>, i32, i64, Seq<char>), V> {
    Map::new(
        |k: (Seq<char>, i32, i64, Seq<char>)|
            exists|i: int| 0 <= i < entries.len() && entries[i].0@ == k,
        |k: (Seq<char>, i32, i64, Seq<char>)| entries[position_of(entries, k)].1,
    )
}

impl<V> View for LatestMap<V> {
    type V = Map<(Seq<char>, i32, i64, Seq<char>), V>;

    closed spec fn view(&self) -> Map<(Seq<char>, i32, i64, Seq<char>), V> {
        entries_map(self.entries@)
    }
}

impl<V> LatestMap<V> {
    /// Each contract has at most one entry.
    pub closed spec fn wf(&self) -> bool {
        keys_distinct(self.entries@)
    }

    /// An empty table.
    pub fn new() -> (r: Self)
        ensures
            r.wf(),
            r@ == Map::<(Seq<char>, i32, i64, Seq<char>), V>::empty(),
    {
        let r = LatestMap { entries: Vec::new() };
        assert(r@ =~= Map::<(Seq<char>, i32, i64, Seq<char>), V>::empty());
        r
    }

    /// The position of `key`'s entry, if it has one.
    fn find(&self, key: &ContractKey) -> (r: Option<usize>)
        requires
            self.wf(),
        ensures
            match r {
                Some(i) => i < self.entries@.len() && self.entries@[i as int].0@ == key@,
                None => forall|i: int|
                    0 <= i < self.entries@.len() ==> self.entries@[i].0@ != key@,
            },
    {
        let mut i: usize = 0;
        while i < self.entries.len()
            invariant
                i <= self.entries@.len(),
                forall|j: int| 0 <= j < i ==> self.entries@[j].0@ != key@,
            decreases self.entries@.len() - i,
        {
            if self.entries[i].0.same_contract(key) {
                return Some(i);
            }
            i = i + 1;
        }
        None
    }

    /// The latest record of `key`'s contract.
    pub fn get(&self, key: &ContractKey) -> (r: Option<&V>)
        requires
            self.wf(),
        ensures
            match r {
                Some(v) => self@.contains_key(key@) && *v == self@[key@],
                None => !self@.contains_key(key@),
            },
    {
        match self.find(key) {
            Some(i) => {
                proof {
                    let p = position_of(self.entries@, key@);
                    assert(0 <= p < self.entries@.len() && self.entries@[p].0@ == key@);
                    assert(p == i);
                }
                Some(&self.entries[i].1)
            },
            None => None,
        }
    }

    /// Makes `value` the latest record of `key`'s contract.
    pub fn insert(&mut self, key: ContractKey, value: V)
        requires
            old(self).wf(),
        ensures
            final(self).wf(),
            final(self)@ == old(self)@.insert(key@, value),
    {
        let ghost k = key@;
        let ghost old_entries = self.entries@;
        match self.find(&key) {
            Some(i) => {
                self.entries.set(i, (key, value));
                proof {
                    let ne = self.entries@;
                    assert(ne == old_entries.update(i as int, (key, value)));
                    assert(keys_distinct(ne));
                    assert forall|k2: (Seq<char>, i32, i64, Seq<char>)| #[trigger]
                        entries_map(ne).contains_key(k2) implies k2 == k || entries_map(
                        old_entries,
                    ).contains_key(k2) by {
                        let j = choose|j: int| 0 <= j < ne.len() && ne[j].0@ == k2;
                        if j != i {
                            assert(old_entries[j].0@ == k2);
                        }
                    }
                    assert forall|k2: (Seq<char>, i32, i64, Seq<char>)| k2 != k && #[trigger]
                        entries_map(old_entries).contains_key(k2) implies entries_map(
                        ne,
                    ).contains_key(k2) && entries_map(ne)[k2] == entries_map(old_entries)[k2] by {
                        let p = position_of(old_entries, k2);
                        assert(0 <= p < old_entries.len() && old_entries[p].0@ == k2);
                        assert(p != i);
                        assert(ne[p].0@ == k2);
                        let q = position_of(ne, k2);
                        assert(0 <= q < ne.len() && ne[q].0@ == k2);
                        assert(q == p);
                    }
                    assert(ne[i as int].0@ == k);
                    let q = position_of(ne, k);
                    assert(0 <= q < ne.len() && ne[q].0@ == k);
                    assert(q == i);
                    assert(entries_map(ne) =~= entries_map(old_entries).insert(k, value));
                }
            },
            None => {
                self.entries.push((key, value));
                proof {
                    let ne = self.entries@;
                    let n = old_entries.len() as int;
                    assert(ne == old_entries.push((key, value)));
                    assert(keys_distinct(ne));
                    assert forall|k2: (Seq<char>, i32, i64, Seq<char>)| #[trigger]
                        entries_map(ne).contains_key(k2) implies k2 == k || entries_map(
                        old_entries,
                    ).contains_key(k2) by {
                        let j = choose|j: int| 0 <= j < ne.len() && ne[j].0@ == k2;
                        if j != n {
                            assert(old_entries[j].0@ == k2);
                        }
                    }
                    assert forall|k2: (Seq<char>, i32, i64, Seq<char>)| k2 != k && #[trigger]
                        entries_map(old_entries).contains_key(k2) implies entries_map(
                        ne,
                    ).contains_key(k2) && entries_map(ne)[k2] == entries_map(old_entries)[k2] by {
                        let p = position_of(old_entries, k2);
                        assert(0 <= p < old_entries.len() && old_entries[p].0@ == k2);
                        assert(ne[p].0@ == k2);
                        let q = position_of(ne, k2);
                        assert(0 <= q < ne.len() && ne[q].0@ == k2);
                        assert(q == p);
                    }
                    assert(ne[n].0@ == k);
                    let q = position_of(ne, k);
                    assert(0 <= q < ne.len() && ne[q].0@ == k);
                    assert(q == n);
                    assert(entries_map(ne) =~= entries_map(old_entries).insert(k, value));
                }
            },
        }
    }
}

} // verus!
