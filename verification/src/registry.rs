//! The identity registry: which experts are verified, which are banned, and
//! who may say so.

pub mod contract;
pub mod error;
pub mod events;
pub mod storage;
pub mod types;

use crate::address::Address;
use crate::registry::error::RegistryError;
use crate::registry::storage::{RegistryLedger, RegistryView};
use vstd::prelude::*;

verus! {

/// The entry points of the identity registry.
pub struct IdentityRegistryContract;

impl IdentityRegistryContract {
    /// Sets the registry up with its administrator. This can be done once:
    /// with an administrator on record it fails with `AlreadyInitialized`.
    pub fn init(registry: &mut RegistryLedger, admin: Address) -> (result: Result<
        (),
        RegistryError,
    >)
        ensures
            result == old(registry)@.initialize_registry_result(),
            final(registry)@ == if result.is_ok() {
                RegistryView { admin: Some(admin@), ..old(registry)@ }
            } else {
                old(registry)@
            },
    {
        contract::initialize_registry(registry, &admin)
    }
}

} // verus!
