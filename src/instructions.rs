//! The three instructions, each with the context that a host supplies for it:
//! who calls, and which records the call is about.
use vstd::prelude::*;

use crate::error::LedgerError;
use crate::ledger::VotingLedger;
use crate::state::{Caller, ProposalId, Vote};

verus! {

/// Context for creating a DAO.
#[derive(Clone, Copy, Debug)]
pub struct InitDao {
    pub admin: Caller,
}

impl InitDao {
    /// Creates a DAO named `name` with the caller as its authority; returns its id.
    pub fn handler(&self, ledger: &mut VotingLedger, name: String) -> (r: Result<u64, LedgerError>)
        requires
            old(ledger).wf(),
        ensures
            VotingLedger::create_dao_post(*old(ledger), *final(ledger), self.admin, name, r),
    {
        ledger.create_dao(self.admin, name)
    }
}

/// Context for creating a proposal under a DAO.
#[derive(Clone, Copy, Debug)]
pub struct InitProposal {
    pub admin: Caller,
    pub dao: u64,
}

impl InitProposal {
    /// Creates a proposal carrying `metadata` under the context's DAO; returns its id.
    pub fn handler(&self, ledger: &mut VotingLedger, metadata: String) -> (r: Result<
        ProposalId,
        LedgerError,
    >)
        requires
            old(ledger).wf(),
        ensures
            VotingLedger::create_proposal_post(
                *old(ledger),
                *final(ledger),
                self.admin,
                self.dao,
                metadata,
                r,
            ),
    {
        ledger.create_proposal(self.admin, self.dao, metadata)
    }
}

/// Context for casting a vote: the voter, the proposal (its DAO and its index
/// there), and the voter's token balance as observed at call time.
#[derive(Clone, Copy, Debug)]
pub struct CastVote {
    pub voter: Caller,
    pub dao: u64,
    pub proposal: u32,
    pub token_balance: u64,
}

impl CastVote {
    /// The id of the proposal that this context names.
    pub open spec fn proposal_id(&self) -> ProposalId {
        ProposalId { dao: self.dao, index: self.proposal }
    }

    /// Casts the voter's vote of the type that `vote_type` encodes (`0` yes,
    /// `1` no) on the context's proposal.
    pub fn cast_vote(&self, ledger: &mut VotingLedger, vote_type: u8) -> (r: Result<
        Vote,
        LedgerError,
    >)
        requires
            old(ledger).wf(),
        ensures
            VotingLedger::cast_vote_post(
                *old(ledger),
                *final(ledger),
                self.voter,
                self.proposal_id(),
                vote_type,
                self.token_balance,
                r,
            ),
    {
        let id = ProposalId { dao: self.dao, index: self.proposal };
        ledger.cast_vote(self.voter, id, vote_type, self.token_balance)
    }
}

} // verus!
