//! What the registry records of an expert.

use vstd::prelude::*;

verus! {

/// An expert's standing.
#[derive(Clone, Copy, Debug, PartialEq, Eq, Structural)]
pub enum ExpertStatus {
    /// Never vetted: the standing of every address that the registry does
    /// not know.
    Unverified,
    /// Vetted by the administrator.
    Verified,
    /// Excluded by the administrator.
    Banned,
}

/// An expert's standing and when it last changed.
#[derive(Clone, Copy, Debug, PartialEq, Eq, Structural)]
pub struct ExpertRecord {
    pub status: ExpertStatus,
    /// Time of the last change, in seconds; zero where there was none.
    pub updated_at: u64,
}

impl ExpertRecord {
    /// The record of an expert that the registry does not know.
    pub open spec fn unknown() -> ExpertRecord {
        ExpertRecord { status: ExpertStatus::Unverified, updated_at: 0 }
    }
}

} // verus!
