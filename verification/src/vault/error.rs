//! The ways in which a vault operation fails.

use vstd::prelude::*;

verus! {

/// Why a vault operation was refused. A refused operation changes nothing.
#[derive(Clone, Copy, Debug, PartialEq, Eq, Structural)]
pub enum VaultError {
    /// The vault already has an administrator on record.
    AlreadyInitialized,
    /// The oracle or the settlement token has not been configured yet.
    NotInitialized,
    /// A rate or a deposit that is not positive or does not fit, or a
    /// settlement that would pay out more than was deposited.
    InvalidAmount,
    /// No booking has this id.
    BookingNotFound,
    /// The booking has already been settled or reclaimed.
    BookingNotPending,
    /// The caller is not the party that the operation is reserved for.
    NotAuthorized,
    /// The oracle's exclusive window has not elapsed yet.
    ReclaimTooEarly,
}

} // verus!
