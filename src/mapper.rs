use vstd::prelude::*;

use crate::account::{AccountId, same_account};
use crate::ledger::Ledger;
use crate::registry::VoterRegistry;
use crate::voting::tier;

verus! {

/// The largest running total at which one more vote still fits in a `u32`.
pub const MAX_TOTAL_VOTES: u32 = 4294967292;

/// Why an operation was refused.
#[derive(Debug, PartialEq, Eq, Clone, Copy, Structural)]
pub enum Error {
    NotIsAdmin,
    MustBeItSelf,
    VoterAlreadyExists,
    VoterNotExist,
    NotVoteItself,
    NotIsVoter,
}

/// Notification that an account joined the voters.
#[derive(Debug, PartialEq, Eq, Clone, Copy)]
pub struct NewVoter {
    pub voter_id: AccountId,
}

/// Notification that an account left the voters.
#[derive(Debug, PartialEq, Eq, Clone, Copy)]
pub struct RemoveVoter {
    pub voter_id: AccountId,
}

/// Notification that an account received a vote.
#[derive(Debug, PartialEq, Eq, Clone, Copy)]
pub struct Vote {
    pub voter_id: AccountId,
}

/// The privileged account, and when it was set.
#[derive(Debug, PartialEq, Eq, Clone, Copy)]
pub struct Admin {
    pub address: AccountId,
    pub modified_date: u64,
}

/// What a `Mapper` holds, as mathematical values.
pub struct MapperState {
    pub admin: Admin,
    pub voters: Set<AccountId>,
    pub scores: Map<AccountId, u32>,
    pub total: int,
}

impl MapperState {
    /// The score of `a`: zero where it has no entry.
    pub open spec fn score(self, a: AccountId) -> int {
        if self.scores.contains_key(a) {
            self.scores[a] as int
        } else {
            0
        }
    }

    /// The running total fits a `u32` and no score exceeds it.
    pub open spec fn bounded(self) -> bool {
        &&& 0 <= self.total <= u32::MAX
        &&& forall|a: AccountId| #[trigger] self.scores.contains_key(a) ==> self.scores[a] <= self.total
    }

    /// `add_voter` by `caller` of `voter_id`: the state after it, or its error.
    pub open spec fn add_voter(self, caller: AccountId, voter_id: AccountId) -> Result<Self, Error> {
        if caller != self.admin.address {
            Err(Error::NotIsAdmin)
        } else if self.voters.contains(voter_id) {
            Err(Error::VoterAlreadyExists)
        } else {
            Ok(MapperState { voters: self.voters.insert(voter_id), ..self })
        }
    }

    /// `remove_voter` by `caller` of `voter_id`: the state after it, or its error.
    pub open spec fn remove_voter(self, caller: AccountId, voter_id: AccountId) -> Result<Self, Error> {
        if caller != self.admin.address {
            Err(Error::NotIsAdmin)
        } else if !self.voters.contains(voter_id) {
            Err(Error::VoterNotExist)
        } else {
            Ok(MapperState { voters: self.voters.remove(voter_id), ..self })
        }
    }

    /// A vote of `caller` for `voter_id`: the state after it, or its error.
    pub open spec fn vote(self, caller: AccountId, voter_id: AccountId) -> Result<Self, Error> {
        if !self.voters.contains(caller) {
            Err(Error::NotIsVoter)
        } else if !self.voters.contains(voter_id) {
            Err(Error::VoterNotExist)
        } else if caller == voter_id {
            Err(Error::NotVoteItself)
        } else {
            let p = tier(self.score(caller), self.total);
            Ok(MapperState {
                scores: self.scores.insert(voter_id, (self.score(voter_id) + p) as u32),
                total: self.total + p,
                ..self
            })
        }
    }

    /// `get_reputation` by `caller` of `voter_id`.
    pub open spec fn reputation(self, caller: AccountId, voter_id: AccountId) -> Result<u32, Error> {
        if caller != voter_id {
            Err(Error::MustBeItSelf)
        } else if !self.voters.contains(voter_id) {
            Err(Error::VoterNotExist)
        } else {
            Ok(self.score(voter_id) as u32)
        }
    }
}

/// The unsigned voting engine: votes only add to the target's score.
pub struct Mapper {
    admin: Admin,
    votes: Ledger<u32>,
    enabled_voters: VoterRegistry,
    total_votes: u32,
}

impl View for Mapper {
    type V = MapperState;

    closed spec fn view(&self) -> MapperState {
        MapperState {
            admin: self.admin,
            voters: self.enabled_voters@,
            scores: self.votes@,
            total: self.total_votes as int,
        }
    }
}

impl Mapper {
    /// The internal structures are sound and the state is bounded.
    pub closed spec fn wf(&self) -> bool {
        &&& self.votes.wf()
        &&& self.enabled_voters.wf()
        &&& self@.bounded()
    }

    /// An engine administered by `admin`, stamped with the time `now`, with no voters
    /// and no votes.
    pub fn new(admin: AccountId, now: u64) -> (r: Self)
        ensures
            r.wf(),
            r@.admin == (Admin { address: admin, modified_date: now }),
            r@.voters == Set::<AccountId>::empty(),
            r@.scores == Map::<AccountId, u32>::empty(),
            r@.total == 0,
    {
        Mapper {
            admin: Admin { address: admin, modified_date: now },
            votes: Ledger::new(),
            enabled_voters: VoterRegistry::new(),
            total_votes: 0,
        }
    }

    /// The weight issued so far.
    pub fn total_votes(&self) -> (r: u32)
        ensures
            r == self@.total,
    {
        self.total_votes
    }

    /// The admin `caller` registers `voter_id`.
    pub fn add_voter(&mut self, caller: AccountId, voter_id: AccountId) -> (r: Result<NewVoter, Error>)
        requires
            old(self).wf(),
        ensures
            final(self).wf(),
            match r {
                Ok(ev) => old(self)@.add_voter(caller, voter_id) == Ok::<MapperState, Error>(final(self)@)
                    && ev == (NewVoter { voter_id }),
                Err(e) => old(self)@.add_voter(caller, voter_id) == Err::<MapperState, Error>(e)
                    && final(self)@ == old(self)@,
            },
    {
        if !same_account(&caller, &self.admin.address) {
            return Err(Error::NotIsAdmin);
        }
        if self.enabled_voters.contains(&voter_id) {
            return Err(Error::VoterAlreadyExists);
        }
        self.enabled_voters.insert(voter_id);
        Ok(NewVoter { voter_id })
    }

    /// The admin `caller` takes `voter_id` off the voters; its score stays recorded.
    pub fn remove_voter(&mut self, caller: AccountId, voter_id: AccountId) -> (r: Result<RemoveVoter, Error>)
        requires
            old(self).wf(),
        ensures
            final(self).wf(),
            match r {
                Ok(ev) => old(self)@.remove_voter(caller, voter_id) == Ok::<MapperState, Error>(final(self)@)
                    && ev == (RemoveVoter { voter_id }),
                Err(e) => old(self)@.remove_voter(caller, voter_id) == Err::<MapperState, Error>(e)
                    && final(self)@ == old(self)@,
            },
    {
        if !same_account(&caller, &self.admin.address) {
            return Err(Error::NotIsAdmin);
        }
        if !self.enabled_voters.contains(&voter_id) {
            return Err(Error::VoterNotExist);
        }
        self.enabled_voters.remove(&voter_id);
        Ok(RemoveVoter { voter_id })
    }

    /// The score of `a`, zero where it has none.
    fn score_of(&self, a: &AccountId) -> (r: u32)
        requires
            self.wf(),
        ensures
            r == self@.score(*a),
    {
        match self.votes.get(a) {
            Some(v) => v,
            None => 0,
        }
    }

    /// The score of `voter_id`, read by `caller`, which must be that voter.
    pub fn get_reputation(&self, caller: AccountId, voter_id: AccountId) -> (r: Result<u32, Error>)
        requires
            self.wf(),
        ensures
            r == self@.reputation(caller, voter_id),
    {
        if !same_account(&caller, &voter_id) {
            return Err(Error::MustBeItSelf);
        }
        if !self.enabled_voters.contains(&voter_id) {
            return Err(Error::VoterNotExist);
        }
        Ok(self.score_of(&voter_id))
    }

    /// `caller` votes for `voter_id`.
    pub fn vote(&mut self, caller: AccountId, voter_id: AccountId) -> (r: Result<Vote, Error>)
        requires
            old(self).wf(),
            old(self)@.total <= MAX_TOTAL_VOTES,
        ensures
            final(self).wf(),
            match r {
                Ok(ev) => old(self)@.vote(caller, voter_id) == Ok::<MapperState, Error>(final(self)@)
                    && ev == (Vote { voter_id }),
                Err(e) => old(self)@.vote(caller, voter_id) == Err::<MapperState, Error>(e)
                    && final(self)@ == old(self)@,
            },
    {
        if !self.enabled_voters.contains(&caller) {
            return Err(Error::NotIsVoter);
        }
        if !self.enabled_voters.contains(&voter_id) {
            return Err(Error::VoterNotExist);
        }
        if same_account(&caller, &voter_id) {
            return Err(Error::NotVoteItself);
        }
        let caller_votes = self.score_of(&caller);
        let power = self.power_of_vote(caller_votes);
        let voter_votes = self.score_of(&voter_id);
        let ghost s0 = self@;
        self.votes.insert(voter_id, voter_votes + power);
        self.total_votes = self.total_votes + power;
        proof {
            let s1 = self@;
            assert forall|a: AccountId| #[trigger] s1.scores.contains_key(a)
                implies s1.scores[a] <= s1.total by {
                if a != voter_id {
                    assert(s0.scores.contains_key(a));
                }
            }
        }
        Ok(Vote { voter_id })
    }

    /// The power that a caller with score `votes` has now.
    pub fn power_of_vote(&self, votes: u32) -> (r: u32)
        ensures
            r == tier(votes as int, self@.total),
            1 <= r <= 3,
    {
        if self.total_votes == 0 {
            1
        } else {
            let ratio: u64 = (votes as u64 * 100) / (self.total_votes as u64);
            if ratio <= 33 {
                1
            } else if ratio <= 66 {
                2
            } else {
                3
            }
        }
    }
}

} // verus!
