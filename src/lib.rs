//! A quadratic-voting ledger: DAOs, proposals under them, and one vote per
//! voter per proposal, weighted by the integer square root of a token balance.
use vstd::prelude::*;

pub mod constants;
pub mod credits;
pub mod error;
pub mod instructions;
pub mod ledger;
pub mod state;
pub mod theorems;

use crate::error::LedgerError;
use crate::instructions::{CastVote, InitDao, InitProposal};
use crate::ledger::VotingLedger;
use crate::state::{ProposalId, Vote};

verus! {

/// Entry point: creates a DAO (see `InitDao::handler`).
pub fn init_dao(ctx: &InitDao, ledger: &mut VotingLedger, name: String) -> (r: Result<
    u64,
    LedgerError,
>)
    requires
        old(ledger).wf(),
    ensures
        VotingLedger::create_dao_post(*old(ledger), *final(ledger), ctx.admin, name, r),
{
    ctx.handler(ledger, name)
}

/// Entry point: creates a proposal (see `InitProposal::handler`).
pub fn init_proposal(ctx: &InitProposal, ledger: &mut VotingLedger, metadata: String) -> (r:
    Result<ProposalId, LedgerError>)
    requires
        old(ledger).wf(),
    ensures
        VotingLedger::create_proposal_post(
            *old(ledger),
            *final(ledger),
            ctx.admin,
            ctx.dao,
            metadata,
            r,
        ),
{
    ctx.handler(ledger, metadata)
}

/// Entry point: casts a vote (see `CastVote::cast_vote`).
pub fn cast_vote(ctx: &CastVote, ledger: &mut VotingLedger, vote_type: u8) -> (r: Result<
    Vote,
    LedgerError,
>)
    requires
        old(ledger).wf(),
    ensures
        VotingLedger::cast_vote_post(
            *old(ledger),
            *final(ledger),
            ctx.voter,
            ctx.proposal_id(),
            vote_type,
            ctx.token_balance,
            r,
        ),
{
    ctx.cast_vote(ledger, vote_type)
}

} // verus!
