use reputation_voting::account::same_account;
use reputation_voting::voting::{
    vote_power, Admin, Error, NewVoter, RemoveVoter, TypeVote, Vote, Voting,
};

const ADMIN: [u8; 32] = [0u8; 32];
const V1: [u8; 32] = [1u8; 32];
const V2: [u8; 32] = [2u8; 32];
const V3: [u8; 32] = [3u8; 32];

fn engine_with(voters: &[[u8; 32]]) -> Voting {
    let mut v = Voting::new(ADMIN, 42);
    for a in voters {
        assert_eq!(v.add_voter(ADMIN, *a), Ok(NewVoter { voter_id: *a }));
    }
    v
}

#[test]
fn new_engine_is_empty() {
    let v = Voting::new(ADMIN, 42);
    assert_eq!(v.admin(), Admin { address: ADMIN, modified_date: 42 });
    assert_eq!(v.total_votes(), 0);
    assert!(!v.is_voter(&V1));
}

#[test]
fn accounts_compare_by_every_byte() {
    let mut a = [7u8; 32];
    assert!(same_account(&a, &[7u8; 32]));
    a[31] = 8;
    assert!(!same_account(&a, &[7u8; 32]));
}

#[test]
fn add_voter_twice_conflicts() {
    let mut v = engine_with(&[V1]);
    assert_eq!(v.add_voter(ADMIN, V2), Ok(NewVoter { voter_id: V2 }));
    assert_eq!(v.add_voter(ADMIN, V2), Err(Error::VoterAlreadyExists));
    assert!(v.is_voter(&V1));
    assert!(v.is_voter(&V2));
    assert!(!v.is_voter(&V3));
    assert_eq!(v.remove_voter(ADMIN, V2), Ok(RemoveVoter { voter_id: V2 }));
    assert!(!v.is_voter(&V2));
}

#[test]
fn admin_may_register_itself() {
    let mut v = Voting::new(ADMIN, 0);
    assert_eq!(v.add_voter(ADMIN, ADMIN), Ok(NewVoter { voter_id: ADMIN }));
    assert!(v.is_voter(&ADMIN));
}

#[test]
fn only_admin_manages_voters() {
    let mut v = engine_with(&[V1]);
    assert_eq!(v.add_voter(V1, V2), Err(Error::NotIsAdmin));
    assert!(!v.is_voter(&V2));
    assert_eq!(v.remove_voter(V1, V1), Err(Error::NotIsAdmin));
    assert!(v.is_voter(&V1));
}

#[test]
fn remove_unknown_voter_fails() {
    let mut v = engine_with(&[V1]);
    assert_eq!(v.remove_voter(ADMIN, V2), Err(Error::VoterNotExist));
    assert!(v.is_voter(&V1));
}

#[test]
fn unregistered_caller_cannot_vote() {
    let mut v = engine_with(&[V1, V2]);
    assert_eq!(v.vote(V3, V1, TypeVote::Like, true), Err(Error::NotIsVoter));
    assert_eq!(v.check_vote(&V3, &V1), Err(Error::NotIsVoter));
    assert_eq!(v.total_votes(), 0);
    assert_eq!(v.get_reputation(V1, V1), Ok(0));
    assert_eq!(v.vote(V1, V2, TypeVote::Like, true).map(|e| e.total_votes), Ok(1));
    assert_eq!(v.vote(V3, V2, TypeVote::Unlike, true), Err(Error::NotIsVoter));
    assert_eq!(v.total_votes(), 1);
    assert_eq!(v.get_reputation(V2, V2), Ok(1));
}

#[test]
fn vote_on_unregistered_target_fails() {
    let mut v = engine_with(&[V1]);
    assert_eq!(v.vote(V1, V3, TypeVote::Like, true), Err(Error::VoterNotExist));
    assert_eq!(v.total_votes(), 0);
}

#[test]
fn first_vote_has_power_one() {
    assert_eq!(vote_power(0, 0), 1);
    assert_eq!(vote_power(500, 0), 1);
    assert_eq!(vote_power(-500, 0), 1);
    let mut v = engine_with(&[V1, V2]);
    assert_eq!(v.power_of_vote(0), 1);
    assert_eq!(
        v.vote(V1, V2, TypeVote::Unlike, true),
        Ok(Vote { voter_id: V2, total_votes: 1, votation: TypeVote::Unlike })
    );
    assert_eq!(v.get_reputation(V2, V2), Ok(-1));
}

#[test]
fn two_voters_like_each_other() {
    let mut v = engine_with(&[V1, V2]);
    assert_eq!(
        v.vote(V1, V2, TypeVote::Like, true),
        Ok(Vote { voter_id: V2, total_votes: 1, votation: TypeVote::Like })
    );
    assert_eq!(v.get_reputation(V2, V2), Ok(1));
    assert_eq!(v.total_votes(), 1);
    // The caller V2 now holds the whole weight issued: ratio 100, top tier.
    assert_eq!(v.power_of_vote(1), 3);
    assert_eq!(
        v.vote(V2, V1, TypeVote::Like, true),
        Ok(Vote { voter_id: V1, total_votes: 4, votation: TypeVote::Like })
    );
    assert_eq!(v.get_reputation(V1, V1), Ok(3));
    assert_eq!(v.get_reputation(V2, V2), Ok(1));
    assert_eq!(v.total_votes(), 4);
}

#[test]
fn power_tiers_at_total_one_hundred() {
    assert_eq!(vote_power(50, 100), 2);
    assert_eq!(vote_power(80, 100), 3);
    assert_eq!(vote_power(0, 100), 1);
    assert_eq!(vote_power(33, 100), 1);
    assert_eq!(vote_power(34, 100), 2);
    assert_eq!(vote_power(66, 100), 2);
    assert_eq!(vote_power(67, 100), 3);
    assert_eq!(vote_power(100, 100), 3);
    assert_eq!(vote_power(-50, 100), 0);
}

#[test]
fn negative_ratio_rounds_down() {
    assert_eq!(vote_power(-1, 300), 0);
    assert_eq!(vote_power(1, 300), 1);
    assert_eq!(vote_power(i32::MAX, 1), 3);
    assert_eq!(vote_power(i32::MIN, 1), 0);
}

#[test]
fn zero_power_vote_still_counts_one() {
    let mut v = engine_with(&[V1, V2]);
    assert!(v.vote(V1, V2, TypeVote::Unlike, true).is_ok());
    assert_eq!(v.get_reputation(V2, V2), Ok(-1));
    assert_eq!(v.power_of_vote(-1), 0);
    assert_eq!(
        v.vote(V2, V1, TypeVote::Like, true),
        Ok(Vote { voter_id: V1, total_votes: 2, votation: TypeVote::Like })
    );
    assert_eq!(v.get_reputation(V1, V1), Ok(0));
    assert_eq!(v.total_votes(), 2);
}

#[test]
fn self_vote_is_refused() {
    let mut v = engine_with(&[V1, V2]);
    assert_eq!(v.vote(V1, V1, TypeVote::Like, true), Err(Error::NotVoteItSelf));
    assert_eq!(v.vote(V1, V1, TypeVote::Unlike, false), Err(Error::NotVoteItSelf));
    assert_eq!(v.check_vote(&V1, &V1), Err(Error::NotVoteItSelf));
    assert_eq!(v.total_votes(), 0);
    assert_eq!(v.get_reputation(V1, V1), Ok(0));
}

#[test]
fn unminted_credential_leaves_no_trace() {
    let mut v = engine_with(&[V1, V2]);
    assert_eq!(v.check_vote(&V1, &V2), Ok(()));
    assert_eq!(v.vote(V1, V2, TypeVote::Like, false), Err(Error::NftNotMint));
    assert_eq!(v.total_votes(), 0);
    assert_eq!(v.get_reputation(V2, V2), Ok(0));
}

#[test]
fn removed_voter_keeps_score() {
    let mut v = engine_with(&[V1, V2]);
    assert!(v.vote(V1, V2, TypeVote::Like, true).is_ok());
    assert_eq!(v.get_reputation(V2, V2), Ok(1));
    assert_eq!(v.remove_voter(ADMIN, V2), Ok(RemoveVoter { voter_id: V2 }));
    assert_eq!(v.get_reputation(V2, V2), Err(Error::VoterNotExist));
    assert_eq!(v.get_balance(V2, V2, 4), Err(Error::VoterNotExist));
    assert_eq!(v.add_voter(ADMIN, V2), Ok(NewVoter { voter_id: V2 }));
    assert_eq!(v.get_reputation(V2, V2), Ok(1));
}

#[test]
fn reads_are_self_only() {
    let mut v = engine_with(&[V1, V2]);
    assert!(v.vote(V1, V2, TypeVote::Like, true).is_ok());
    assert_eq!(v.get_reputation(ADMIN, V2), Err(Error::MustBeItSelf));
    assert_eq!(v.get_reputation(V1, V2), Err(Error::MustBeItSelf));
    assert_eq!(v.get_balance(ADMIN, V1, 1), Err(Error::MustBeItSelf));
    assert_eq!(v.get_balance(V2, V1, 1), Err(Error::MustBeItSelf));
    assert_eq!(v.get_balance(V1, V1, 1), Ok(1));
    assert_eq!(v.get_reputation(V2, V2), Ok(1));
}
