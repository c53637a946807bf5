//! Limits on the text that records carry.
use vstd::prelude::*;

verus! {

/// Longest DAO name accepted, in characters.
pub const MAX_NAME_LEN: usize = 32;

/// Longest proposal metadata accepted, in characters.
pub const MAX_METADATA_LEN: usize = 280;

} // verus!
