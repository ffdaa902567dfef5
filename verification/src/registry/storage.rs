//! The registry's ledger: its administrator, the experts' records, and the
//! notifications published so far.

use crate::address::{key_of, Address};
use crate::registry::events::{ExpertStatusChange, ExpertStatusChangedEvent};
use crate::registry::types::{ExpertRecord, ExpertStatus};
use crate::table::AddressTable;
use vstd::prelude::*;

verus! {

/// The changes of a list, each as the contracts speak of it.
pub open spec fn change_views(events: Seq<ExpertStatusChangedEvent>) -> Seq<ExpertStatusChange> {
    events.map_values(|e: ExpertStatusChangedEvent| e@)
}

/// The record that a table holds of an expert: that of an unknown expert
/// where it holds none.
pub open spec fn record_of(experts: Map<Seq<char>, ExpertRecord>, expert: Seq<char>) -> ExpertRecord {
    if experts.contains_key(expert) {
        experts[expert]
    } else {
        ExpertRecord::unknown()
    }
}

/// Everything the registry keeps.
pub struct RegistryLedger {
    admin: Option<Address>,
    experts: AddressTable<ExpertRecord>,
    events: Vec<ExpertStatusChangedEvent>,
}

/// The registry's ledger as the contracts speak of it.
#[verifier::ext_equal]
pub struct RegistryView {
    /// Who may change an expert's standing, once configured.
    pub admin: Option<Seq<char>>,
    /// The records of the experts whose standing was ever set.
    pub experts: Map<Seq<char>, ExpertRecord>,
    /// The notifications published so far, oldest first.
    pub events: Seq<ExpertStatusChange>,
}

impl RegistryView {
    /// The ledger of a registry that has not been set up and knows nobody.
    pub open spec fn empty() -> RegistryView {
        RegistryView { admin: None, experts: Map::empty(), events: Seq::empty() }
    }
}

impl View for RegistryLedger {
    type V = RegistryView;

    closed spec fn view(&self) -> RegistryView {
        RegistryView {
            admin: key_of(self.admin),
            experts: self.experts@,
            events: change_views(self.events@),
        }
    }
}

impl RegistryLedger {
    /// The ledger of a registry that has not been set up and knows nobody.
    pub fn new() -> (registry: RegistryLedger)
        ensures
            registry@ == RegistryView::empty(),
    {
        let registry = RegistryLedger {
            admin: None,
            experts: AddressTable::new(),
            events: Vec::new(),
        };
        assert(registry@.events =~= Seq::empty());
        registry
    }
}

// --- Admin ---
/// Whether an administrator is on record.
pub fn has_admin(registry: &RegistryLedger) -> (present: bool)
    ensures
        present == registry@.admin.is_some(),
{
    registry.admin.is_some()
}

/// Records `admin` as the administrator.
pub fn set_admin(registry: &mut RegistryLedger, admin: &Address)
    ensures
        final(registry)@ == (RegistryView { admin: Some(admin@), ..old(registry)@ }),
{
    registry.admin = Some(admin.clone());
}

/// The administrator, if one is on record.
pub fn get_admin(registry: &RegistryLedger) -> (admin: Option<Address>)
    ensures
        key_of(admin) == registry@.admin,
{
    match &registry.admin {
        Some(a) => Some(a.clone()),
        None => None,
    }
}

// --- Experts ---
/// Records that `expert` has the standing `status` since `now`.
pub fn set_expert_record(
    registry: &mut RegistryLedger,
    expert: &Address,
    status: ExpertStatus,
    now: u64,
)
    ensures
        final(registry)@ == (RegistryView {
            experts: old(registry)@.experts.insert(
                expert@,
                ExpertRecord { status, updated_at: now },
            ),
            ..old(registry)@
        }),
{
    let record = ExpertRecord { status, updated_at: now };
    registry.experts.insert(expert.clone(), record);
}

/// The record of `expert`: unverified and never changed, where none was set.
pub fn get_expert_record(registry: &RegistryLedger, expert: &Address) -> (record: ExpertRecord)
    ensures
        record == record_of(registry@.experts, expert@),
{
    match registry.experts.get(expert) {
        Some(record) => *record,
        None => ExpertRecord { status: ExpertStatus::Unverified, updated_at: 0 },
    }
}

/// The standing of `expert`: unverified, where none was set.
pub fn get_expert_status(registry: &RegistryLedger, expert: &Address) -> (status: ExpertStatus)
    ensures
        status == record_of(registry@.experts, expert@).status,
{
    get_expert_record(registry, expert).status
}

// --- Notifications ---
/// Adds `event` to the log of notifications.
pub fn publish(registry: &mut RegistryLedger, event: ExpertStatusChangedEvent)
    ensures
        final(registry)@ == (RegistryView {
            events: old(registry)@.events.push(event@),
            ..old(registry)@
        }),
{
    registry.events.push(event);
    assert(final(registry)@.events =~= old(registry)@.events.push(event@));
}

/// The notifications published so far, oldest first.
pub fn get_events(registry: &RegistryLedger) -> (events: &Vec<ExpertStatusChangedEvent>)
    ensures
        change_views(events@) == registry@.events,
{
    &registry.events
}

} // verus!
