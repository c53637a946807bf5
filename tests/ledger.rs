use quadratic_voting::constants::{MAX_METADATA_LEN, MAX_NAME_LEN};
use quadratic_voting::credits::vote_credits;
use quadratic_voting::error::LedgerError;
use quadratic_voting::instructions::{CastVote, InitDao, InitProposal};
use quadratic_voting::ledger::VotingLedger;
use quadratic_voting::state::{Caller, ProposalId, Vote, VoteType};
use quadratic_voting::{cast_vote, init_dao, init_proposal};

fn signed(identity: u64) -> Caller {
    Caller { identity, verified: true }
}

fn unsigned(identity: u64) -> Caller {
    Caller { identity, verified: false }
}

fn ledger_with_proposal() -> (VotingLedger, ProposalId) {
    let mut l = VotingLedger::new();
    let dao = l.create_dao(signed(1), "Treasury".to_string()).unwrap();
    let id = l.create_proposal(signed(1), dao, "Fund X".to_string()).unwrap();
    (l, id)
}

#[test]
fn credits_are_floor_of_square_root() {
    assert_eq!(vote_credits(0), 0);
    assert_eq!(vote_credits(1), 1);
    assert_eq!(vote_credits(99), 9);
    assert_eq!(vote_credits(100), 10);
    assert_eq!(vote_credits(10000), 100);
}

#[test]
fn credits_at_extremes() {
    assert_eq!(vote_credits(2), 1);
    assert_eq!(vote_credits(3), 1);
    assert_eq!(vote_credits(4), 2);
    assert_eq!(vote_credits(u64::MAX), 4294967295);
    assert_eq!(vote_credits(4294967295u64 * 4294967295u64), 4294967295);
    assert_eq!(vote_credits(4294967295u64 * 4294967295u64 - 1), 4294967294);
}

#[test]
fn treasury_scenario() {
    let mut l = VotingLedger::new();
    let dao = l.create_dao(signed(1), "Treasury".to_string()).unwrap();
    let id = l.create_proposal(signed(1), dao, "Fund X".to_string()).unwrap();
    assert_eq!(id.index, 0);
    let v = l.cast_vote(signed(10), id, 0, 81).unwrap();
    assert_eq!(v, Vote { voter: 10, proposal: id, vote_type: VoteType::Yes, vote_credits: 9 });
    let p = l.get_proposal(id).unwrap();
    assert_eq!(p.yes_vote_count, 9);
    assert_eq!(p.no_vote_count, 0);
    assert_eq!(l.cast_vote(signed(10), id, 1, 81), Err(LedgerError::DuplicateVote));
    let p = l.get_proposal(id).unwrap();
    assert_eq!(p.yes_vote_count, 9);
    assert_eq!(p.no_vote_count, 0);
}

#[test]
fn new_dao_has_admin_and_no_proposals() {
    let mut l = VotingLedger::new();
    let first = l.create_dao(signed(42), "Alpha".to_string()).unwrap();
    let second = l.create_dao(signed(43), "Beta".to_string()).unwrap();
    assert_eq!(first, 0);
    assert_eq!(second, 1);
    let d = l.get_dao(second).unwrap();
    assert_eq!(d.authority, 43);
    assert_eq!(d.proposal_count, 0);
    assert_eq!(d.name, "Beta");
    assert!(l.get_dao(2).is_none());
}

#[test]
fn dao_name_bound() {
    let mut l = VotingLedger::new();
    let at_bound = "n".repeat(MAX_NAME_LEN);
    assert_eq!(l.create_dao(signed(1), at_bound), Ok(0));
    let over = "n".repeat(MAX_NAME_LEN + 1);
    assert_eq!(l.create_dao(signed(1), over), Err(LedgerError::InvalidInput));
    assert!(l.get_dao(1).is_none());
}

#[test]
fn dao_name_counted_in_characters() {
    let mut l = VotingLedger::new();
    let wide = "\u{e9}".repeat(MAX_NAME_LEN);
    assert_eq!(l.create_dao(signed(1), wide), Ok(0));
}

#[test]
fn unverified_caller_is_refused() {
    let (mut l, id) = ledger_with_proposal();
    assert_eq!(l.create_dao(unsigned(1), "X".to_string()), Err(LedgerError::Unauthenticated));
    assert_eq!(
        l.create_proposal(unsigned(1), 0, "m".to_string()),
        Err(LedgerError::Unauthenticated)
    );
    assert_eq!(l.cast_vote(unsigned(9), id, 0, 4), Err(LedgerError::Unauthenticated));
    assert!(l.get_vote(9, id).is_none());
}

#[test]
fn proposals_take_sequential_indices() {
    let mut l = VotingLedger::new();
    let dao = l.create_dao(signed(1), "D".to_string()).unwrap();
    let other = l.create_dao(signed(2), "E".to_string()).unwrap();
    for n in 1..=5u32 {
        let id = l.create_proposal(signed(7), dao, format!("p{}", n)).unwrap();
        assert_eq!(id, ProposalId { dao, index: n - 1 });
        assert_eq!(l.get_dao(dao).unwrap().proposal_count, n);
    }
    let id = l.create_proposal(signed(7), other, "q".to_string()).unwrap();
    assert_eq!(id, ProposalId { dao: other, index: 0 });
    let listed = l.list_proposals(dao);
    assert_eq!(listed.len(), 5);
    for (i, id) in listed.iter().enumerate() {
        assert_eq!(*id, ProposalId { dao, index: i as u32 });
    }
    assert_eq!(l.list_proposals(other), vec![ProposalId { dao: other, index: 0 }]);
    assert!(l.list_proposals(9).is_empty());
}

#[test]
fn proposal_errors() {
    let mut l = VotingLedger::new();
    assert_eq!(l.create_proposal(signed(1), 0, "m".to_string()), Err(LedgerError::NotFound));
    let dao = l.create_dao(signed(1), "D".to_string()).unwrap();
    let long = "m".repeat(MAX_METADATA_LEN + 1);
    assert_eq!(l.create_proposal(signed(1), dao, long), Err(LedgerError::InvalidInput));
    assert_eq!(l.get_dao(dao).unwrap().proposal_count, 0);
    let at_bound = "m".repeat(MAX_METADATA_LEN);
    let id = l.create_proposal(signed(1), dao, at_bound.clone()).unwrap();
    let p = l.get_proposal(id).unwrap();
    assert_eq!(p.metadata, at_bound);
    assert_eq!(p.authority, 1);
}

#[test]
fn tallies_sum_credits_of_votes() {
    let (mut l, id) = ledger_with_proposal();
    l.cast_vote(signed(10), id, 0, 81).unwrap();
    l.cast_vote(signed(11), id, 1, 16).unwrap();
    l.cast_vote(signed(12), id, 0, 1).unwrap();
    l.cast_vote(signed(13), id, 1, 0).unwrap();
    let p = l.get_proposal(id).unwrap();
    assert_eq!(p.yes_vote_count, 10);
    assert_eq!(p.no_vote_count, 4);
    assert_eq!(p.yes_vote_count + p.no_vote_count, 9 + 4 + 1 + 0);
    assert_eq!(l.get_vote(11, id).unwrap().vote_credits, 4);
    assert_eq!(l.get_vote(13, id).unwrap().vote_type, VoteType::No);
}

#[test]
fn one_vote_per_voter_per_proposal() {
    let (mut l, id) = ledger_with_proposal();
    let second = l.create_proposal(signed(1), id.dao, "other".to_string()).unwrap();
    l.cast_vote(signed(10), id, 1, 25).unwrap();
    assert_eq!(l.cast_vote(signed(10), id, 1, 25), Err(LedgerError::DuplicateVote));
    assert_eq!(l.cast_vote(signed(10), id, 0, 10000), Err(LedgerError::DuplicateVote));
    let p = l.get_proposal(id).unwrap();
    assert_eq!((p.yes_vote_count, p.no_vote_count), (0, 5));
    assert!(l.cast_vote(signed(10), second, 0, 4).is_ok());
    assert_eq!(l.get_proposal(second).unwrap().yes_vote_count, 2);
}

#[test]
fn vote_errors() {
    let (mut l, id) = ledger_with_proposal();
    assert_eq!(l.cast_vote(signed(10), id, 2, 4), Err(LedgerError::InvalidInput));
    let missing = ProposalId { dao: id.dao, index: 1 };
    assert_eq!(l.cast_vote(signed(10), missing, 0, 4), Err(LedgerError::NotFound));
    let no_dao = ProposalId { dao: 5, index: 0 };
    assert_eq!(l.cast_vote(signed(10), no_dao, 0, 4), Err(LedgerError::NotFound));
    assert!(l.get_vote(10, id).is_none());
}

#[test]
fn largest_balances_accumulate() {
    let (mut l, id) = ledger_with_proposal();
    for voter in 100..110u64 {
        let v = l.cast_vote(signed(voter), id, 1, u64::MAX).unwrap();
        assert_eq!(v.vote_credits, 4294967295);
    }
    assert_eq!(l.get_proposal(id).unwrap().no_vote_count, 10 * 4294967295);
}

#[test]
fn vote_type_codes() {
    assert_eq!(VoteType::from_code(0), Some(VoteType::Yes));
    assert_eq!(VoteType::from_code(1), Some(VoteType::No));
    assert_eq!(VoteType::from_code(2), None);
    assert_eq!(VoteType::from_code(255), None);
}

#[test]
fn instruction_entry_points() {
    let mut l = VotingLedger::new();
    let dao = init_dao(&InitDao { admin: signed(3) }, &mut l, "Treasury".to_string()).unwrap();
    let ctx = InitProposal { admin: signed(4), dao };
    let id = init_proposal(&ctx, &mut l, "Fund X".to_string()).unwrap();
    assert_eq!(id, ProposalId { dao, index: 0 });
    let vote = CastVote { voter: signed(5), dao, proposal: 0, token_balance: 81 };
    let v = cast_vote(&vote, &mut l, 0).unwrap();
    assert_eq!(v.vote_credits, 9);
    assert_eq!(cast_vote(&vote, &mut l, 1), Err(LedgerError::DuplicateVote));
    let elsewhere = CastVote { voter: signed(6), dao, proposal: 3, token_balance: 81 };
    assert_eq!(cast_vote(&elsewhere, &mut l, 0), Err(LedgerError::NotFound));
    assert_eq!(ctx.handler(&mut l, "next".to_string()).unwrap().index, 1);
    assert_eq!(l.get_proposal(id).unwrap().yes_vote_count, 9);
}
