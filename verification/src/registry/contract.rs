//! The registry's operations: setting it up, and verifying and banning
//! experts, which only its administrator may do.

use crate::address::Address;
use crate::registry::error::RegistryError;
use crate::registry::events;
use crate::registry::events::ExpertStatusChange;
use crate::registry::storage;
use crate::registry::storage::{record_of, RegistryLedger, RegistryView};
use crate::registry::types::{ExpertRecord, ExpertStatus};
use vstd::prelude::*;

verus! {

impl RegistryView {
    /// What setting the registry up returns: it can be done once.
    pub open spec fn initialize_registry_result(self) -> Result<(), RegistryError> {
        if self.admin.is_some() {
            Err(RegistryError::AlreadyInitialized)
        } else {
            Ok(())
        }
    }

    /// What giving `expert` a new standing returns, where `repeated` is the
    /// error for an expert who has that standing already. Only the
    /// administrator may do it.
    pub open spec fn set_status_result(
        self,
        caller: Seq<char>,
        expert: Seq<char>,
        status: ExpertStatus,
        repeated: RegistryError,
    ) -> Result<(), RegistryError> {
        if self.admin.is_none() {
            Err(RegistryError::NotInitialized)
        } else if self.admin != Some(caller) {
            Err(RegistryError::NotAuthorized)
        } else if record_of(self.experts, expert).status == status {
            Err(repeated)
        } else {
            Ok(())
        }
    }

    /// The ledger with the new standing of `expert` recorded at `now` and
    /// announced in the administrator's name.
    pub open spec fn with_status(
        self,
        expert: Seq<char>,
        status: ExpertStatus,
        now: u64,
    ) -> RegistryView {
        RegistryView {
            experts: self.experts.insert(expert, ExpertRecord { status, updated_at: now }),
            events: self.events.push(
                ExpertStatusChange {
                    expert,
                    old_status: record_of(self.experts, expert).status,
                    new_status: status,
                    admin: self.admin.unwrap(),
                },
            ),
            ..self
        }
    }
}

/// Sets the registry up with its administrator. This can be done once: with
/// an administrator on record it fails with `AlreadyInitialized`.
pub fn initialize_registry(registry: &mut RegistryLedger, admin: &Address) -> (result: Result<
    (),
    RegistryError,
>)
    ensures
        result == old(registry)@.initialize_registry_result(),
        final(registry)@ == if result.is_ok() {
            RegistryView { admin: Some(admin@), ..old(registry)@ }
        } else {
            old(registry)@
        },
{
    if storage::has_admin(registry) {
        return Err(RegistryError::AlreadyInitialized);
    }
    storage::set_admin(registry, admin);
    Ok(())
}

/// Gives `expert` the standing `status` at the time `now`, on behalf of
/// `caller`, and announces the change.
fn set_status(
    registry: &mut RegistryLedger,
    caller: &Address,
    expert: &Address,
    status: ExpertStatus,
    repeated: RegistryError,
    now: u64,
) -> (result: Result<(), RegistryError>)
    ensures
        result == old(registry)@.set_status_result(caller@, expert@, status, repeated),
        final(registry)@ == if result.is_ok() {
            old(registry)@.with_status(expert@, status, now)
        } else {
            old(registry)@
        },
{
    let admin = match storage::get_admin(registry) {
        Some(admin) => admin,
        None => { return Err(RegistryError::NotInitialized); },
    };
    if !admin.same_as(caller) {
        return Err(RegistryError::NotAuthorized);
    }
    let current_status = storage::get_expert_status(registry, expert);
    if current_status == status {
        return Err(repeated);
    }
    storage::set_expert_record(registry, expert, status, now);
    events::emit_status_change(registry, expert.clone(), current_status, status, admin);
    Ok(())
}

/// Verifies `expert` at the time `now`, on behalf of `caller`, the
/// authenticated caller.
///
/// Only the administrator may verify: without one on record the call fails
/// with `NotInitialized`, for any other caller with `NotAuthorized`. For an
/// expert who is verified already it fails with `AlreadyVerified`. Otherwise
/// the expert's record says verified since `now`, and the change is
/// announced.
pub fn verify_expert(
    registry: &mut RegistryLedger,
    caller: &Address,
    expert: &Address,
    now: u64,
) -> (result: Result<(), RegistryError>)
    ensures
        result == old(registry)@.set_status_result(
            caller@,
            expert@,
            ExpertStatus::Verified,
            RegistryError::AlreadyVerified,
        ),
        final(registry)@ == if result.is_ok() {
            old(registry)@.with_status(expert@, ExpertStatus::Verified, now)
        } else {
            old(registry)@
        },
{
    set_status(
        registry,
        caller,
        expert,
        ExpertStatus::Verified,
        RegistryError::AlreadyVerified,
        now,
    )
}

/// Bans `expert` at the time `now`, on behalf of `caller`, the authenticated
/// caller.
///
/// Only the administrator may ban: without one on record the call fails with
/// `NotInitialized`, for any other caller with `NotAuthorized`. For an
/// expert who is banned already it fails with `AlreadyBanned`. Otherwise the
/// expert's record says banned since `now`, and the change is announced.
pub fn ban_expert(
    registry: &mut RegistryLedger,
    caller: &Address,
    expert: &Address,
    now: u64,
) -> (result: Result<(), RegistryError>)
    ensures
        result == old(registry)@.set_status_result(
            caller@,
            expert@,
            ExpertStatus::Banned,
            RegistryError::AlreadyBanned,
        ),
        final(registry)@ == if result.is_ok() {
            old(registry)@.with_status(expert@, ExpertStatus::Banned, now)
        } else {
            old(registry)@
        },
{
    set_status(registry, caller, expert, ExpertStatus::Banned, RegistryError::AlreadyBanned, now)
}

/// The standing of `expert`: unverified, where none was set.
pub fn get_expert_status(registry: &RegistryLedger, expert: &Address) -> (status: ExpertStatus)
    ensures
        status == record_of(registry@.experts, expert@).status,
{
    storage::get_expert_status(registry, expert)
}

} // verus!
