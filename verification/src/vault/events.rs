//! Notifications for observers outside the vault.

use crate::vault::storage;
use crate::vault::storage::{EscrowLedger, LedgerView};
use vstd::prelude::*;

verus! {

/// What the vault tells the outside world. Notifications are only ever
/// added to the ledger's log, in the order in which they happened.
#[derive(Clone, Copy, Debug, PartialEq, Eq, Structural)]
pub enum VaultEvent {
    /// The oracle settled a booking.
    SessionFinalized { booking_id: u64, actual_duration: u64, expert_pay: i128 },
    /// The user took a stale booking's deposit back.
    SessionReclaimed { booking_id: u64, amount: i128 },
}

/// Tells observers that the oracle settled a booking after a session of
/// `actual_duration`, and what the expert was paid.
pub fn session_finalized(
    ledger: &mut EscrowLedger,
    booking_id: u64,
    actual_duration: u64,
    expert_pay: i128,
)
    ensures
        final(ledger)@ == (LedgerView {
            events: old(ledger)@.events.push(
                VaultEvent::SessionFinalized { booking_id, actual_duration, expert_pay },
            ),
            ..old(ledger)@
        }),
{
    storage::publish(ledger, VaultEvent::SessionFinalized { booking_id, actual_duration, expert_pay });
}

/// Tells observers that a user took the deposit of a stale booking back.
pub fn session_reclaimed(ledger: &mut EscrowLedger, booking_id: u64, amount: i128)
    ensures
        final(ledger)@ == (LedgerView {
            events: old(ledger)@.events.push(VaultEvent::SessionReclaimed { booking_id, amount }),
            ..old(ledger)@
        }),
{
    storage::publish(ledger, VaultEvent::SessionReclaimed { booking_id, amount });
}

} // verus!
