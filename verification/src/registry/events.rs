//! Notifications for observers outside the registry.

use crate::address::Address;
use crate::registry::storage;
use crate::registry::storage::{RegistryLedger, RegistryView};
use crate::registry::types::ExpertStatus;
use vstd::prelude::*;

verus! {

/// The topic under which a change of standing is announced.
pub const STATUS_CHANGE_TOPIC: &'static str = "status_change";

/// An expert's standing changed.
#[derive(Debug, PartialEq, Eq)]
pub struct ExpertStatusChangedEvent {
    pub expert: Address,
    pub old_status: ExpertStatus,
    pub new_status: ExpertStatus,
    /// The administrator who made the change.
    pub admin: Address,
}

/// A change of standing as the contracts speak of it.
pub struct ExpertStatusChange {
    pub expert: Seq<char>,
    pub old_status: ExpertStatus,
    pub new_status: ExpertStatus,
    pub admin: Seq<char>,
}

impl View for ExpertStatusChangedEvent {
    type V = ExpertStatusChange;

    open spec fn view(&self) -> ExpertStatusChange {
        ExpertStatusChange {
            expert: self.expert@,
            old_status: self.old_status,
            new_status: self.new_status,
            admin: self.admin@,
        }
    }
}

impl Clone for ExpertStatusChangedEvent {
    fn clone(&self) -> (copy: ExpertStatusChangedEvent)
        ensures
            copy@ == self@,
    {
        ExpertStatusChangedEvent {
            expert: self.expert.clone(),
            old_status: self.old_status,
            new_status: self.new_status,
            admin: self.admin.clone(),
        }
    }
}

/// Announces that `admin` changed the standing of `expert`.
pub fn emit_status_change(
    registry: &mut RegistryLedger,
    expert: Address,
    old_status: ExpertStatus,
    new_status: ExpertStatus,
    admin: Address,
)
    ensures
        final(registry)@ == (RegistryView {
            events: old(registry)@.events.push(
                ExpertStatusChange { expert: expert@, old_status, new_status, admin: admin@ },
            ),
            ..old(registry)@
        }),
{
    let event = ExpertStatusChangedEvent { expert, old_status, new_status, admin };
    storage::publish(registry, event);
}

} // verus!
