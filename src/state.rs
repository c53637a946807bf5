//! The records that the ledger keeps.
use vstd::prelude::*;

verus! {

/// The identity of the party making a call, as the host's authentication
/// supplies it.
#[derive(Clone, Copy, Debug, PartialEq, Eq, Structural)]
pub struct Caller {
    pub identity: u64,
    /// Whether the host verified that the caller holds `identity`.
    pub verified: bool,
}

/// Which tally a vote goes to.
#[derive(Clone, Copy, Debug, PartialEq, Eq, Structural)]
pub enum VoteType {
    Yes,
    No,
}

/// The vote type that a wire code stands for: `0` is yes, `1` is no.
pub open spec fn vote_type_of(code: u8) -> Option<VoteType> {
    if code == 0 {
        Some(VoteType::Yes)
    } else if code == 1 {
        Some(VoteType::No)
    } else {
        None
    }
}

impl VoteType {
    /// Decodes a vote type; any code but `0` and `1` is refused.
    pub fn from_code(code: u8) -> (r: Option<VoteType>)
        ensures
            r == vote_type_of(code),
    {
        if code == 0 {
            Some(VoteType::Yes)
        } else if code == 1 {
            Some(VoteType::No)
        } else {
            None
        }
    }
}

/// A proposal's permanent identity: its DAO and its place in that DAO's sequence.
#[derive(Clone, Copy, Debug, PartialEq, Eq, Structural)]
pub struct ProposalId {
    pub dao: u64,
    pub index: u32,
}

/// A voting organization.
#[derive(Clone, Debug)]
pub struct Dao {
    pub name: String,
    pub authority: u64,
    /// How many proposals were created under this DAO; the next one gets this index.
    pub proposal_count: u32,
}

/// A votable item under a DAO, with its two tallies of vote credits.
#[derive(Clone, Debug)]
pub struct Proposal {
    pub id: ProposalId,
    pub authority: u64,
    pub metadata: String,
    pub yes_vote_count: u64,
    pub no_vote_count: u64,
}

/// One voter's vote on one proposal.
#[derive(Clone, Copy, Debug, PartialEq, Eq, Structural)]
pub struct Vote {
    pub voter: u64,
    pub proposal: ProposalId,
    pub vote_type: VoteType,
    pub vote_credits: u64,
}

} // verus!
