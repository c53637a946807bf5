//! What a ledger operation reports when it refuses to act.
use vstd::prelude::*;

verus! {

/// Why an operation failed. A failed operation leaves the ledger unchanged.
#[derive(Clone, Copy, Debug, PartialEq, Eq, Structural)]
pub enum LedgerError {
    /// A string is over its bound, or a vote type is neither yes nor no.
    InvalidInput,
    /// The caller's identity was not verified.
    Unauthenticated,
    /// The referenced DAO or proposal does not exist.
    NotFound,
    /// The voter has already voted on this proposal.
    DuplicateVote,
    /// A counter or a tally would pass its largest value.
    Overflow,
}

} // verus!
