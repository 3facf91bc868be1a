use vstd::prelude::*;

use crate::account::{AccountId, same_account};
use crate::ledger::Ledger;
use crate::registry::VoterRegistry;

verus! {

/// The largest running total at which one more vote still fits in an `i32`.
pub const MAX_TOTAL_VOTES: i32 = 2147483644;

/// Notification that an account joined the voters.
#[derive(Debug, PartialEq, Eq, Clone, Copy)]
pub struct NewVoter {
    pub voter_id: AccountId,
}

/// Notification that an account left the voters.
#[derive(Debug, PartialEq, Eq, Clone, Copy)]
pub struct RemoveVoter {
    pub voter_id: AccountId,
}

/// Notification of a vote: its target, the running total after it, and its polarity.
#[derive(Debug, PartialEq, Eq, Clone, Copy)]
pub struct Vote {
    pub voter_id: AccountId,
    pub total_votes: i32,
    pub votation: TypeVote,
}

/// The privileged account, and when it was set.
#[derive(Debug, PartialEq, Eq, Clone, Copy)]
pub struct Admin {
    pub address: AccountId,
    pub modified_date: u64,
}

/// Why an operation was refused.
#[derive(Debug, PartialEq, Eq, Clone, Copy, Structural)]
pub enum Error {
    NotIsAdmin,
    MustBeItSelf,
    VoterAlreadyExists,
    VoterNotExist,
    NotVoteItSelf,
    NotIsVoter,
    NftNotMint,
}

/// The polarity of a vote.
#[derive(Debug, PartialEq, Eq, Clone, Copy, Structural)]
pub enum TypeVote {
    Like,
    Unlike,
}

/// The voting power of a caller with score `votes` when `total` weight has been issued.
pub open spec fn tier(votes: int, total: int) -> int {
    if total == 0 {
        1
    } else {
        let ratio = (votes * 100) / total;
        if ratio < 0 {
            0
        } else if ratio <= 33 {
            1
        } else if ratio <= 66 {
            2
        } else {
            3
        }
    }
}

/// What a `Voting` holds, as mathematical values.
pub struct VotingState {
    pub admin: Admin,
    pub voters: Set<AccountId>,
    pub scores: Map<AccountId, i32>,
    pub total: int,
}

impl VotingState {
    /// The score of `a`: zero where it has no entry.
    pub open spec fn score(self, a: AccountId) -> int {
        if self.scores.contains_key(a) {
            self.scores[a] as int
        } else {
            0
        }
    }

    /// The running total is not negative and no score is further from zero than it.
    pub open spec fn bounded(self) -> bool {
        &&& 0 <= self.total <= i32::MAX
        &&& forall|a: AccountId| #[trigger] self.scores.contains_key(a)
            ==> -self.total <= self.scores[a] <= self.total
    }

    /// `add_voter` by `caller` of `voter_id`: the state after it, or its error.
    pub open spec fn add_voter(self, caller: AccountId, voter_id: AccountId) -> Result<Self, Error> {
        if caller != self.admin.address {
            Err(Error::NotIsAdmin)
        } else if self.voters.contains(voter_id) {
            Err(Error::VoterAlreadyExists)
        } else {
            Ok(VotingState { voters: self.voters.insert(voter_id), ..self })
        }
    }

    /// `remove_voter` by `caller` of `voter_id`: the state after it, or its error.
    pub open spec fn remove_voter(self, caller: AccountId, voter_id: AccountId) -> Result<Self, Error> {
        if caller != self.admin.address {
            Err(Error::NotIsAdmin)
        } else if !self.voters.contains(voter_id) {
            Err(Error::VoterNotExist)
        } else {
            Ok(VotingState { voters: self.voters.remove(voter_id), ..self })
        }
    }

    /// Whether `caller` may vote on `voter_id`, or why not.
    pub open spec fn vote_check(self, caller: AccountId, voter_id: AccountId) -> Result<(), Error> {
        if !self.voters.contains(caller) {
            Err(Error::NotIsVoter)
        } else if !self.voters.contains(voter_id) {
            Err(Error::VoterNotExist)
        } else if caller == voter_id {
            Err(Error::NotVoteItSelf)
        } else {
            Ok(())
        }
    }

    /// The power that a vote of `caller` carries now.
    pub open spec fn power(self, caller: AccountId) -> int {
        tier(self.score(caller), self.total)
    }

    /// A vote of `caller` on `voter_id`, where `minted` tells whether the credential
    /// for `caller` was issued: the state after it, or its error.
    pub open spec fn vote(
        self,
        caller: AccountId,
        voter_id: AccountId,
        value: TypeVote,
        minted: bool,
    ) -> Result<Self, Error> {
        match self.vote_check(caller, voter_id) {
            Err(e) => Err(e),
            Ok(_) => {
                if !minted {
                    Err(Error::NftNotMint)
                } else {
                    let p = self.power(caller);
                    let delta = if value == TypeVote::Like { p } else { -p };
                    Ok(VotingState {
                        scores: self.scores.insert(voter_id, (self.score(voter_id) + delta) as i32),
                        total: self.total + if p == 0 { 1 } else { p },
                        ..self
                    })
                }
            },
        }
    }

    /// A read of `voter_id`'s own data by `caller`: allowed, or why not.
    pub open spec fn self_read(self, caller: AccountId, voter_id: AccountId) -> Result<(), Error> {
        if caller != voter_id {
            Err(Error::MustBeItSelf)
        } else if !self.voters.contains(voter_id) {
            Err(Error::VoterNotExist)
        } else {
            Ok(())
        }
    }

    /// `get_reputation` by `caller` of `voter_id`.
    pub open spec fn reputation(self, caller: AccountId, voter_id: AccountId) -> Result<i32, Error> {
        match self.self_read(caller, voter_id) {
            Err(e) => Err(e),
            Ok(_) => Ok(self.score(voter_id) as i32),
        }
    }
}

/// The voting engine: its admin, the voters, their scores, and the weight issued so far.
pub struct Voting {
    admin: Admin,
    votes: Ledger<i32>,
    enabled_voters: VoterRegistry,
    total_votes: i32,
}

impl View for Voting {
    type V = VotingState;

    closed spec fn view(&self) -> VotingState {
        VotingState {
            admin: self.admin,
            voters: self.enabled_voters@,
            scores: self.votes@,
            total: self.total_votes as int,
        }
    }
}

/// The voting power of a caller with score `votes` when `total_votes` weight has been issued.
pub fn vote_power(votes: i32, total_votes: i32) -> (r: i32)
    requires
        total_votes >= 0,
    ensures
        r == tier(votes as int, total_votes as int),
{
    if total_votes == 0 {
        1
    } else if votes < 0 {
        assert((votes * 100) / (total_votes as int) < 0) by (nonlinear_arith)
            requires
                votes < 0,
                total_votes > 0,
        ;
        0
    } else {
        let ratio: u64 = (votes as u64 * 100) / (total_votes as u64);
        if ratio <= 33 {
            1
        } else if ratio <= 66 {
            2
        } else {
            3
        }
    }
}

impl Voting {
    /// The internal structures are sound and the state is bounded.
    pub closed spec fn wf(&self) -> bool {
        &&& self.votes.wf()
        &&& self.enabled_voters.wf()
        &&& self@.bounded()
    }

    /// An engine administered by `admin`, stamped with the time `now`, with no voters
    /// and no votes.
    pub fn new(admin: AccountId, now: u64) -> (r: Self)
        ensures
            r.wf(),
            r@.admin == (Admin { address: admin, modified_date: now }),
            r@.voters == Set::<AccountId>::empty(),
            r@.scores == Map::<AccountId, i32>::empty(),
            r@.total == 0,
    {
        Voting {
            admin: Admin { address: admin, modified_date: now },
            votes: Ledger::new(),
            enabled_voters: VoterRegistry::new(),
            total_votes: 0,
        }
    }

    /// The admin record.
    pub fn admin(&self) -> (r: Admin)
        ensures
            r == self@.admin,
    {
        self.admin
    }

    /// The weight issued so far.
    pub fn total_votes(&self) -> (r: i32)
        ensures
            r == self@.total,
    {
        self.total_votes
    }

    /// Whether `voter_id` is a voter.
    pub fn is_voter(&self, voter_id: &AccountId) -> (r: bool)
        ensures
            r == self@.voters.contains(*voter_id),
    {
        self.enabled_voters.contains(voter_id)
    }

    /// The score of `a`, zero where it has none.
    fn score_of(&self, a: &AccountId) -> (r: i32)
        requires
            self.wf(),
        ensures
            r == self@.score(*a),
    {
        match self.votes.get(a) {
            Some(v) => v,
            None => 0,
        }
    }

    /// The admin `caller` registers `voter_id`.
    pub fn add_voter(&mut self, caller: AccountId, voter_id: AccountId) -> (r: Result<NewVoter, Error>)
        requires
            old(self).wf(),
        ensures
            final(self).wf(),
            match r {
                Ok(ev) => old(self)@.add_voter(caller, voter_id) == Ok::<VotingState, Error>(final(self)@)
                    && ev == (NewVoter { voter_id }),
                Err(e) => old(self)@.add_voter(caller, voter_id) == Err::<VotingState, Error>(e)
                    && final(self)@ == old(self)@,
            },
    {
        if !same_account(&caller, &self.admin.address) {
            return Err(Error::NotIsAdmin);
        }
        if self.enabled_voters.contains(&voter_id) {
            return Err(Error::VoterAlreadyExists);
        }
        self.enabled_voters.insert(voter_id);
        Ok(NewVoter { voter_id })
    }

    /// The admin `caller` takes `voter_id` off the voters; its score stays recorded.
    pub fn remove_voter(&mut self, caller: AccountId, voter_id: AccountId) -> (r: Result<RemoveVoter, Error>)
        requires
            old(self).wf(),
        ensures
            final(self).wf(),
            match r {
                Ok(ev) => old(self)@.remove_voter(caller, voter_id) == Ok::<VotingState, Error>(final(self)@)
                    && ev == (RemoveVoter { voter_id }),
                Err(e) => old(self)@.remove_voter(caller, voter_id) == Err::<VotingState, Error>(e)
                    && final(self)@ == old(self)@,
            },
    {
        if !same_account(&caller, &self.admin.address) {
            return Err(Error::NotIsAdmin);
        }
        if !self.enabled_voters.contains(&voter_id) {
            return Err(Error::VoterNotExist);
        }
        self.enabled_voters.remove(&voter_id);
        Ok(RemoveVoter { voter_id })
    }

    /// Whether `caller` may vote on `voter_id` now, or why not. A credential is to be
    /// minted for `caller` only where this is `Ok`.
    pub fn check_vote(&self, caller: &AccountId, voter_id: &AccountId) -> (r: Result<(), Error>)
        ensures
            r == self@.vote_check(*caller, *voter_id),
    {
        if !self.enabled_voters.contains(caller) {
            return Err(Error::NotIsVoter);
        }
        if !self.enabled_voters.contains(voter_id) {
            return Err(Error::VoterNotExist);
        }
        if same_account(caller, voter_id) {
            return Err(Error::NotVoteItSelf);
        }
        Ok(())
    }

    /// The power that a caller with score `votes` has now.
    pub fn power_of_vote(&self, votes: i32) -> (r: i32)
        requires
            self.wf(),
        ensures
            r == tier(votes as int, self@.total),
    {
        vote_power(votes, self.total_votes)
    }

    /// `caller` votes `value` on `voter_id`. `minted` tells whether the credential for
    /// `caller` was issued; where it was not, the vote has no effect.
    pub fn vote(&mut self, caller: AccountId, voter_id: AccountId, value: TypeVote, minted: bool) -> (r: Result<Vote, Error>)
        requires
            old(self).wf(),
            old(self)@.total <= MAX_TOTAL_VOTES,
        ensures
            final(self).wf(),
            match r {
                Ok(ev) => old(self)@.vote(caller, voter_id, value, minted) == Ok::<VotingState, Error>(final(self)@)
                    && ev == (Vote { voter_id, total_votes: final(self)@.total as i32, votation: value }),
                Err(e) => old(self)@.vote(caller, voter_id, value, minted) == Err::<VotingState, Error>(e)
                    && final(self)@ == old(self)@,
            },
    {
        match self.check_vote(&caller, &voter_id) {
            Err(e) => {
                return Err(e);
            },
            Ok(_) => {},
        }
        if !minted {
            return Err(Error::NftNotMint);
        }
        let caller_votes = self.score_of(&caller);
        let power = self.power_of_vote(caller_votes);
        let voter_votes = self.score_of(&voter_id);
        let new_votes = match value {
            TypeVote::Like => voter_votes + power,
            TypeVote::Unlike => voter_votes - power,
        };
        let ghost s0 = self@;
        self.votes.insert(voter_id, new_votes);
        if power == 0 {
            self.total_votes = self.total_votes + 1;
        } else {
            self.total_votes = self.total_votes + power;
        }
        proof {
            let s1 = self@;
            assert forall|a: AccountId| #[trigger] s1.scores.contains_key(a)
                implies -s1.total <= s1.scores[a] <= s1.total by {
                if a != voter_id {
                    assert(s0.scores.contains_key(a));
                }
            }
        }
        Ok(Vote { voter_id, total_votes: self.total_votes, votation: value })
    }

    /// Whether `caller` may read the data of `voter_id`, or why not.
    fn self_read(&self, caller: &AccountId, voter_id: &AccountId) -> (r: Result<(), Error>)
        ensures
            r == self@.self_read(*caller, *voter_id),
    {
        if !same_account(caller, voter_id) {
            return Err(Error::MustBeItSelf);
        }
        if !self.enabled_voters.contains(voter_id) {
            return Err(Error::VoterNotExist);
        }
        Ok(())
    }

    /// The score of `voter_id`, read by `caller`, which must be that voter.
    pub fn get_reputation(&self, caller: AccountId, voter_id: AccountId) -> (r: Result<i32, Error>)
        requires
            self.wf(),
        ensures
            r == self@.reputation(caller, voter_id),
    {
        match self.self_read(&caller, &voter_id) {
            Err(e) => Err(e),
            Ok(_) => Ok(self.score_of(&voter_id)),
        }
    }

    /// The credential count `balance` of `voter_id`, handed on to `caller` only where
    /// `caller` is that voter.
    pub fn get_balance(&self, caller: AccountId, voter_id: AccountId, balance: u32) -> (r: Result<u32, Error>)
        ensures
            r == match self@.self_read(caller, voter_id) {
                Err(e) => Err::<u32, Error>(e),
                Ok(_) => Ok(balance),
            },
    {
        match self.self_read(&caller, &voter_id) {
            Err(e) => Err(e),
            Ok(_) => Ok(balance),
        }
    }
}

/// Registering the same account twice: whatever the first call did, the second is
/// refused because the account is already a voter.
pub proof fn lemma_add_voter_twice(s: VotingState, voter_id: AccountId)
    ensures
        (match s.add_voter(s.admin.address, voter_id) {
            Ok(t) => t,
            Err(_) => s,
        }).add_voter(s.admin.address, voter_id) == Err::<VotingState, Error>(Error::VoterAlreadyExists),
{
}

/// A caller that is not a voter cannot vote, whatever the target, polarity or
/// credential outcome; the state is then left as it was.
pub proof fn lemma_unregistered_caller_cannot_vote(
    s: VotingState,
    caller: AccountId,
    voter_id: AccountId,
    value: TypeVote,
    minted: bool,
)
    requires
        !s.voters.contains(caller),
    ensures
        s.vote(caller, voter_id, value, minted) == Err::<VotingState, Error>(Error::NotIsVoter),
{
}

/// The first vote ever cast has power one: it moves the target's score by one and
/// brings the running total to one.
pub proof fn lemma_first_vote_has_power_one(
    s: VotingState,
    caller: AccountId,
    voter_id: AccountId,
    value: TypeVote,
)
    requires
        s.bounded(),
        s.total == 0,
        s.vote_check(caller, voter_id) == Ok::<(), Error>(()),
    ensures
        s.power(caller) == 1,
        s.vote(caller, voter_id, value, true) is Ok,
        s.vote(caller, voter_id, value, true).unwrap().total == 1,
        s.vote(caller, voter_id, value, true).unwrap().score(voter_id)
            == s.score(voter_id) + if value == TypeVote::Like { 1int } else { -1int },
{
}

/// Every vote that goes through raises the running total, by its power or by one
/// where its power is zero.
pub proof fn lemma_total_grows(s: VotingState, caller: AccountId, voter_id: AccountId, value: TypeVote)
    requires
        s.vote(caller, voter_id, value, true) is Ok,
    ensures
        s.vote(caller, voter_id, value, true).unwrap().total
            == s.total + if s.power(caller) == 0 { 1 } else { s.power(caller) },
        s.vote(caller, voter_id, value, true).unwrap().total > s.total,
{
}

/// A voter that votes on itself is refused for that reason, whatever the scores
/// and the credential outcome.
pub proof fn lemma_self_vote_refused(s: VotingState, caller: AccountId, value: TypeVote, minted: bool)
    requires
        s.voters.contains(caller),
    ensures
        s.vote(caller, caller, value, minted) == Err::<VotingState, Error>(Error::NotVoteItSelf),
{
}

/// Removing a voter keeps its score: while it is out, reading it is refused; once it
/// is registered again, it reads the same score as before.
pub proof fn lemma_removal_keeps_score(s: VotingState, voter_id: AccountId)
    requires
        s.remove_voter(s.admin.address, voter_id) is Ok,
    ensures
        ({
            let s1 = s.remove_voter(s.admin.address, voter_id).unwrap();
            &&& s1.scores == s.scores
            &&& s1.reputation(voter_id, voter_id) == Err::<i32, Error>(Error::VoterNotExist)
            &&& s1.add_voter(s.admin.address, voter_id) is Ok
            &&& s1.add_voter(s.admin.address, voter_id).unwrap().scores == s.scores
            &&& s1.add_voter(s.admin.address, voter_id).unwrap().reputation(voter_id, voter_id)
                == s.reputation(voter_id, voter_id)
        }),
{
    let s1 = s.remove_voter(s.admin.address, voter_id).unwrap();
    assert(s1.voters.insert(voter_id) =~= s.voters);
}

/// Only the account itself may read its score or its credential count; anyone else,
/// the admin included, is refused.
pub proof fn lemma_reads_are_self_only(s: VotingState, caller: AccountId, voter_id: AccountId)
    requires
        caller != voter_id,
    ensures
        s.self_read(caller, voter_id) == Err::<(), Error>(Error::MustBeItSelf),
        s.reputation(caller, voter_id) == Err::<i32, Error>(Error::MustBeItSelf),
{
}

} // verus!
