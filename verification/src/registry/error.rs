//! The ways in which a registry operation fails.

use vstd::prelude::*;

verus! {

/// Why a registry operation was refused. A refused operation changes
/// nothing.
#[derive(Clone, Copy, Debug, PartialEq, Eq, Structural)]
pub enum RegistryError {
    /// The registry already has an administrator on record.
    AlreadyInitialized,
    /// The registry has no administrator yet.
    NotInitialized,
    /// The caller is not the administrator.
    NotAuthorized,
    /// The expert is verified already.
    AlreadyVerified,
    /// The expert is banned already.
    AlreadyBanned,
}

} // verus!
