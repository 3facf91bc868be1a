use vstd::prelude::*;

use crate::account::{AccountId, same_account};

verus! {

/// The set of accounts that may cast votes and receive them.
pub struct VoterRegistry {
    voters: Vec<AccountId>,
}

impl View for VoterRegistry {
    type V = Set<AccountId>;

    closed spec fn view(&self) -> Set<AccountId> {
        Set::new(|a: AccountId| self.voters@.contains(a))
    }
}

impl VoterRegistry {
    /// Each member is listed once.
    pub closed spec fn wf(&self) -> bool {
        self.voters@.no_duplicates()
    }

    /// A registry with no members.
    pub fn new() -> (r: Self)
        ensures
            r.wf(),
            r@ == Set::<AccountId>::empty(),
    {
        let r = VoterRegistry { voters: Vec::new() };
        assert(r@ =~= Set::<AccountId>::empty());
        r
    }

    /// Where `a` is listed, if it is.
    fn position(&self, a: &AccountId) -> (r: Option<usize>)
        ensures
            match r {
                Some(i) => i < self.voters@.len() && self.voters@[i as int] == *a,
                None => !self.voters@.contains(*a),
            },
    {
        let mut i: usize = 0;
        while i < self.voters.len()
            invariant
                i <= self.voters@.len(),
                forall|j: int| 0 <= j < i ==> self.voters@[j] != *a,
            decreases self.voters@.len() - i,
        {
            if same_account(&self.voters[i], a) {
                return Some(i);
            }
            i = i + 1;
        }
        None
    }

    /// Whether `a` is a member.
    pub fn contains(&self, a: &AccountId) -> (r: bool)
        ensures
            r == self@.contains(*a),
    {
        match self.position(a) {
            Some(_) => true,
            None => false,
        }
    }

    /// Adds `a`, which is not yet a member.
    pub fn insert(&mut self, a: AccountId)
        requires
            old(self).wf(),
            !old(self)@.contains(a),
        ensures
            final(self).wf(),
            final(self)@ == old(self)@.insert(a),
    {
        self.voters.push(a);
        proof {
            let s = self.voters@;
            assert(forall|x: AccountId| #[trigger] s.contains(x) <==> (old(self).voters@.contains(x) || x == a)) by {
                assert forall|x: AccountId| #[trigger] s.contains(x) implies (old(self).voters@.contains(x) || x == a) by {
                    let k = choose|k: int| 0 <= k < s.len() && s[k] == x;
                    if k < s.len() - 1 {
                        assert(old(self).voters@[k] == x);
                    }
                }
                assert forall|x: AccountId| old(self).voters@.contains(x) implies #[trigger] s.contains(x) by {
                    let k = choose|k: int| 0 <= k < old(self).voters@.len() && old(self).voters@[k] == x;
                    assert(s[k] == x);
                }
                assert(s[s.len() - 1] == a);
            }
            assert(self@ =~= old(self)@.insert(a));
        }
    }

    /// Takes `a`, which is a member, out.
    pub fn remove(&mut self, a: &AccountId)
        requires
            old(self).wf(),
            old(self)@.contains(*a),
        ensures
            final(self).wf(),
            final(self)@ == old(self)@.remove(*a),
    {
        let ghost s0 = self.voters@;
        match self.position(a) {
            Some(i) => {
                self.voters.remove(i);
                proof {
                    let s = self.voters@;
                    assert(s =~= s0.remove(i as int));
                    assert forall|x: AccountId| #[trigger] s.contains(x) implies (s0.contains(x) && x != *a) by {
                        let k = choose|k: int| 0 <= k < s.len() && s[k] == x;
                        if k < i {
                            assert(s0[k] == x);
                        } else {
                            assert(s0[k + 1] == x);
                        }
                    }
                    assert forall|x: AccountId| s0.contains(x) && x != *a implies #[trigger] s.contains(x) by {
                        let k = choose|k: int| 0 <= k < s0.len() && s0[k] == x;
                        if k < i {
                            assert(s[k] == x);
                        } else {
                            assert(k != i);
                            assert(s[k - 1] == x);
                        }
                    }
                    assert forall|p: int, q: int| 0 <= p < s.len() && 0 <= q < s.len() && p != q
                        implies s[p] != s[q] by {
                        let p0 = if p < i { p } else { p + 1 };
                        let q0 = if q < i { q } else { q + 1 };
                        assert(s[p] == s0[p0] && s[q] == s0[q0]);
                    }
                    assert(self@ =~= old(self)@.remove(*a));
                }
            },
            None => {},
        }
    }
}

} // verus!
