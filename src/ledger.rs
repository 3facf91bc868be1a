use vstd::prelude::*;

use crate::account::{AccountId, same_account};

verus! {

/// Scores by account. An account with no entry has never been the target of a vote.
pub struct Ledger<V> {
    entries: Vec<(AccountId, V)>,
    scores: Ghost<Map<AccountId, V>>,
}

impl<V> View for Ledger<V> {
    type V = Map<AccountId, V>;

    closed spec fn view(&self) -> Map<AccountId, V> {
        self.scores@
    }
}

impl<V: Copy> Ledger<V> {
    /// The entries list each key of the map once, with its value, and no other key.
    pub closed spec fn wf(&self) -> bool {
        &&& forall|i: int, j: int|
            0 <= i < self.entries@.len() && 0 <= j < self.entries@.len() && i != j
                ==> #[trigger] self.entries@[i].0 != #[trigger] self.entries@[j].0
        &&& forall|i: int|
            0 <= i < self.entries@.len() ==> #[trigger] self.scores@.contains_key(self.entries@[i].0)
                && self.scores@[self.entries@[i].0] == self.entries@[i].1
        &&& forall|a: AccountId|
            #[trigger] self.scores@.contains_key(a) ==> exists|i: int|
                0 <= i < self.entries@.len() && #[trigger] self.entries@[i].0 == a
    }

    /// A ledger with no entries.
    pub fn new() -> (r: Self)
        ensures
            r.wf(),
            r@ == Map::<AccountId, V>::empty(),
    {
        Ledger { entries: Vec::new(), scores: Ghost(Map::empty()) }
    }

    /// Where the entry of `a` stands, if it has one.
    fn position(&self, a: &AccountId) -> (r: Option<usize>)
        requires
            self.wf(),
        ensures
            match r {
                Some(i) => i < self.entries@.len() && self.entries@[i as int].0 == *a,
                None => !self@.contains_key(*a),
            },
    {
        let mut i: usize = 0;
        while i < self.entries.len()
            invariant
                i <= self.entries@.len(),
                forall|j: int| 0 <= j < i ==> self.entries@[j].0 != *a,
            decreases self.entries@.len() - i,
        {
            if same_account(&self.entries[i].0, a) {
                return Some(i);
            }
            i = i + 1;
        }
        None
    }

    /// The value recorded for `a`, if any.
    pub fn get(&self, a: &AccountId) -> (r: Option<V>)
        requires
            self.wf(),
        ensures
            r == (if self@.contains_key(*a) { Some(self@[*a]) } else { None::<V> }),
    {
        match self.position(a) {
            Some(i) => Some(self.entries[i].1),
            None => None,
        }
    }

    /// Records `v` for `a`, replacing what was there.
    pub fn insert(&mut self, a: AccountId, v: V)
        requires
            old(self).wf(),
        ensures
            final(self).wf(),
            final(self)@ == old(self)@.insert(a, v),
    {
        let ghost m = self.scores@.insert(a, v);
        match self.position(&a) {
            Some(i) => {
                self.entries.set(i, (a, v));
                self.scores = Ghost(m);
                proof {
                    assert forall|b: AccountId| #[trigger] self.scores@.contains_key(b) implies exists|k: int|
                        0 <= k < self.entries@.len() && #[trigger] self.entries@[k].0 == b by {
                        if b != a {
                            let k = choose|k: int| 0 <= k < old(self).entries@.len() && old(self).entries@[k].0 == b;
                            assert(self.entries@[k].0 == b);
                        } else {
                            assert(self.entries@[i as int].0 == b);
                        }
                    }
                }
            },
            None => {
                self.entries.push((a, v));
                self.scores = Ghost(m);
                proof {
                    let n = old(self).entries@.len();
                    assert(self.entries@[n as int].0 == a);
                    assert forall|i: int| 0 <= i < n implies old(self).entries@[i].0 != a by {
                        assert(old(self).scores@.contains_key(old(self).entries@[i].0));
                    }
                    assert forall|b: AccountId| #[trigger] self.scores@.contains_key(b) implies exists|k: int|
                        0 <= k < self.entries@.len() && #[trigger] self.entries@[k].0 == b by {
                        if b != a {
                            let k = choose|k: int| 0 <= k < old(self).entries@.len() && old(self).entries@[k].0 == b;
                            assert(self.entries@[k].0 == b);
                        }
                    }
                }
            },
        }
    }
}

} // verus!
