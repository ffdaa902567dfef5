//! The booking lifecycle: setting the vault up, taking a deposit for a
//! booking, settling it on the oracle's report, and handing a stale deposit
//! back to its user.
//!
//! Every operation either applies all of its changes or none. The host
//! authenticates the caller that an operation names before it calls, and
//! carries out the transfers that a successful operation requests together
//! with adopting the new ledger: where a transfer cannot be made, it drops
//! the new ledger too.

use crate::address::Address;
use crate::registry;
use crate::registry::storage::{record_of, RegistryLedger};
use crate::registry::types::ExpertStatus;
use crate::vault::error::VaultError;
use crate::vault::events;
use crate::vault::events::VaultEvent;
use crate::vault::id_list::has_room;
use crate::vault::storage;
use crate::vault::storage::{
    bookings_of, Booking, BookingStatus, BookingView, EscrowLedger, LedgerView, Transfer,
    TransferView,
};
use soroban_sdk::Env;
use vstd::prelude::*;

verus! {

/// How long the oracle alone may end a booking: 24 hours, in seconds.
pub const RECLAIM_TIMEOUT: u64 = 86400;

/// Whether a deposit can be taken at this rate for this duration: the rate
/// is positive, and so is the deposit, which fits in the amount type.
pub open spec fn deposit_accepted(rate: i128, booked_duration: u64) -> bool {
    rate > 0 && 0 < rate * booked_duration <= i128::MAX
}

/// The deposit for a booking: the rate times the booked duration.
pub fn deposit_for(rate: i128, booked_duration: u64) -> (result: Result<i128, VaultError>)
    ensures
        match result {
            Ok(deposit) => deposit_accepted(rate, booked_duration) && deposit == rate
                * booked_duration,
            Err(e) => e == VaultError::InvalidAmount && !deposit_accepted(rate, booked_duration),
        },
{
    if rate <= 0 {
        return Err(VaultError::InvalidAmount);
    }
    match rate.checked_mul(booked_duration as i128) {
        Some(deposit) => {
            if deposit <= 0 {
                Err(VaultError::InvalidAmount)
            } else {
                Ok(deposit)
            }
        },
        None => Err(VaultError::InvalidAmount),
    }
}

/// How a deposit is split when a session ends.
#[derive(Clone, Copy, Debug, PartialEq, Eq, Structural)]
pub struct Settlement {
    /// What the expert earned: the rate times the actual duration.
    pub expert_pay: i128,
    /// What goes back to the user: the rest of the deposit.
    pub refund: i128,
}

/// Whether a session of this length can be settled from this deposit:
/// neither the expert's pay nor the user's refund is negative.
pub open spec fn settlement_accepted(rate: i128, total_deposit: i128, actual_duration: u64) -> bool {
    rate * actual_duration >= 0 && total_deposit - rate * actual_duration >= 0
}

/// The split of a deposit after a session of `actual_duration`. Pay and
/// refund together are exactly the deposit.
pub fn settle(rate: i128, total_deposit: i128, actual_duration: u64) -> (result: Result<
    Settlement,
    VaultError,
>)
    ensures
        match result {
            Ok(split) => {
                &&& settlement_accepted(rate, total_deposit, actual_duration)
                &&& split.expert_pay == rate * actual_duration
                &&& split.refund == total_deposit - rate * actual_duration
                &&& split.expert_pay + split.refund == total_deposit
            },
            Err(e) => e == VaultError::InvalidAmount && !settlement_accepted(
                rate,
                total_deposit,
                actual_duration,
            ),
        },
{
    let expert_pay: i128 = match rate.checked_mul(actual_duration as i128) {
        Some(pay) => pay,
        None => { return Err(VaultError::InvalidAmount); },
    };
    if expert_pay < 0 || expert_pay > total_deposit {
        return Err(VaultError::InvalidAmount);
    }
    Ok(Settlement { expert_pay, refund: total_deposit - expert_pay })
}

/// Whether a booking made at `created_at` may be reclaimed at `now`: only
/// once more than the timeout has passed.
pub open spec fn reclaim_due(created_at: u64, now: u64) -> bool {
    now > created_at + RECLAIM_TIMEOUT
}

/// Whether a booking made at `created_at` may be reclaimed at `now`.
pub fn is_reclaim_due(created_at: u64, now: u64) -> (due: bool)
    ensures
        due == reclaim_due(created_at, now),
{
    now > created_at && now - created_at > RECLAIM_TIMEOUT
}

impl LedgerView {
    /// What setting the vault up returns: it can be done once.
    pub open spec fn initialize_vault_result(self) -> Result<(), VaultError> {
        if self.admin.is_some() {
            Err(VaultError::AlreadyInitialized)
        } else {
            Ok(())
        }
    }

    /// The ledger with the three configured addresses on record.
    pub open spec fn configured(
        self,
        admin: Seq<char>,
        token: Seq<char>,
        oracle: Seq<char>,
    ) -> LedgerView {
        LedgerView { admin: Some(admin), token: Some(token), oracle: Some(oracle), ..self }
    }

    /// Whether the ledger can take a booking of `expert` by `user`: the
    /// counter has an id left to give, and the lists of both have room.
    pub open spec fn has_room_for_booking(self, user: Seq<char>, expert: Seq<char>) -> bool {
        &&& self.booking_counter < u64::MAX
        &&& has_room(bookings_of(self.user_bookings, user))
        &&& has_room(bookings_of(self.expert_bookings, expert))
    }

    /// The id that the next booking gets.
    pub open spec fn next_booking_id(self) -> u64 {
        (self.booking_counter + 1) as u64
    }

    /// What creating a booking returns: the new booking's id, unless the
    /// deposit is refused or no settlement token is configured.
    pub open spec fn create_booking_result(self, rate: i128, booked_duration: u64) -> Result<
        u64,
        VaultError,
    > {
        if !deposit_accepted(rate, booked_duration) {
            Err(VaultError::InvalidAmount)
        } else if self.token.is_none() {
            Err(VaultError::NotInitialized)
        } else {
            Ok(self.next_booking_id())
        }
    }

    /// The ledger with a new pending booking under the next id: the counter
    /// moved on, the id listed for its user and for its expert, and the
    /// deposit requested from the user.
    pub open spec fn with_new_booking(
        self,
        user: Seq<char>,
        expert: Seq<char>,
        rate: i128,
        booked_duration: u64,
        now: u64,
    ) -> LedgerView {
        let id = self.next_booking_id();
        let total_deposit = (rate * booked_duration) as i128;
        LedgerView {
            booking_counter: id,
            bookings: self.bookings.insert(
                id,
                BookingView {
                    id,
                    expert,
                    user,
                    rate,
                    total_deposit,
                    booked_duration,
                    status: BookingStatus::Pending,
                    created_at: now,
                },
            ),
            user_bookings: self.user_bookings.insert(
                user,
                bookings_of(self.user_bookings, user).push(id),
            ),
            expert_bookings: self.expert_bookings.insert(
                expert,
                bookings_of(self.expert_bookings, expert).push(id),
            ),
            transfers: self.transfers.push(
                TransferView::Deposit { from: user, amount: total_deposit },
            ),
            ..self
        }
    }
}

/// Sets the vault up with its administrator, settlement token and oracle.
/// This can be done once: with an administrator on record it fails with
/// `AlreadyInitialized`.
pub fn initialize_vault(
    ledger: &mut EscrowLedger,
    admin: &Address,
    token: &Address,
    oracle: &Address,
) -> (result: Result<(), VaultError>)
    ensures
        result == old(ledger)@.initialize_vault_result(),
        final(ledger)@ == if result.is_ok() {
            old(ledger)@.configured(admin@, token@, oracle@)
        } else {
            old(ledger)@
        },
{
    if storage::has_admin(ledger) {
        return Err(VaultError::AlreadyInitialized);
    }
    storage::set_admin(ledger, admin);
    storage::set_token(ledger, token);
    storage::set_oracle(ledger, oracle);
    Ok(())
}

/// Whether the ledger can take a booking of `expert` by `user`.
pub fn has_room_for_booking(ledger: &EscrowLedger, user: &Address, expert: &Address) -> (room:
    bool)
    ensures
        room == ledger@.has_room_for_booking(user@, expert@),
{
    storage::booking_counter(ledger) < u64::MAX && storage::user_list_has_room(ledger, user)
        && storage::expert_list_has_room(ledger, expert)
}

/// Books a session of `booked_duration` seconds with `expert` at `rate` for
/// `user`, the authenticated caller, at the time `now`.
///
/// The deposit is the rate times the duration. With a rate or a deposit that
/// is not positive, or a deposit that does not fit, the call fails with
/// `InvalidAmount`; without a settlement token, with `NotInitialized`.
/// Otherwise the deposit is requested from the user, and the booking is
/// stored as pending under a new id, which is returned and listed for the
/// user and for the expert. A first list is made in `env`.
pub fn create_booking(
    ledger: &mut EscrowLedger,
    env: &Env,
    user: &Address,
    expert: &Address,
    rate: i128,
    booked_duration: u64,
    now: u64,
) -> (result: Result<u64, VaultError>)
    requires
        old(ledger)@.has_room_for_booking(user@, expert@),
    ensures
        result == old(ledger)@.create_booking_result(rate, booked_duration),
        final(ledger)@ == if result.is_ok() {
            old(ledger)@.with_new_booking(user@, expert@, rate, booked_duration, now)
        } else {
            old(ledger)@
        },
{
    let total_deposit: i128 = match deposit_for(rate, booked_duration) {
        Ok(deposit) => deposit,
        Err(e) => { return Err(e); },
    };
    if storage::get_token(ledger).is_none() {
        return Err(VaultError::NotInitialized);
    }
    storage::request_transfer(
        ledger,
        Transfer::Deposit { from: user.clone(), amount: total_deposit },
    );
    let booking_id: u64 = storage::get_next_booking_id(ledger);
    let booking = Booking {
        id: booking_id,
        expert: expert.clone(),
        user: user.clone(),
        rate,
        total_deposit,
        booked_duration,
        status: BookingStatus::Pending,
        created_at: now,
    };
    storage::save_booking(ledger, &booking);
    storage::add_booking_to_user_list(ledger, env, user, booking_id);
    storage::add_booking_to_expert_list(ledger, env, expert, booking_id);
    Ok(booking_id)
}

/// The payouts that settle `booking` after a session of `actual_duration`:
/// the expert's pay, then the user's refund, each only where it is not zero.
pub open spec fn settlement_payouts(booking: BookingView, actual_duration: u64) -> Seq<
    TransferView,
> {
    let expert_pay = booking.rate * actual_duration;
    let refund = booking.total_deposit - expert_pay;
    let to_expert = if expert_pay > 0 {
        seq![TransferView::Payout { to: booking.expert, amount: expert_pay as i128 }]
    } else {
        Seq::empty()
    };
    let to_user = if refund > 0 {
        seq![TransferView::Payout { to: booking.user, amount: refund as i128 }]
    } else {
        Seq::empty()
    };
    to_expert + to_user
}

impl LedgerView {
    /// What finalizing a session returns. Only the oracle may do it, only
    /// for a booking that is still pending, and only where the deposit
    /// covers the expert's pay.
    pub open spec fn finalize_session_result(
        self,
        caller: Seq<char>,
        booking_id: u64,
        actual_duration: u64,
    ) -> Result<(), VaultError> {
        if self.oracle.is_none() {
            Err(VaultError::NotInitialized)
        } else if self.oracle != Some(caller) {
            Err(VaultError::NotAuthorized)
        } else if !self.bookings.contains_key(booking_id) {
            Err(VaultError::BookingNotFound)
        } else if self.bookings[booking_id].status != BookingStatus::Pending {
            Err(VaultError::BookingNotPending)
        } else if !settlement_accepted(
            self.bookings[booking_id].rate,
            self.bookings[booking_id].total_deposit,
            actual_duration,
        ) {
            Err(VaultError::InvalidAmount)
        } else if self.token.is_none() {
            Err(VaultError::NotInitialized)
        } else {
            Ok(())
        }
    }

    /// The ledger with the booking complete, its payouts requested, and the
    /// settlement announced.
    pub open spec fn with_session_finalized(
        self,
        booking_id: u64,
        actual_duration: u64,
    ) -> LedgerView {
        let booking = self.bookings[booking_id];
        LedgerView {
            bookings: self.bookings.insert(
                booking_id,
                BookingView { status: BookingStatus::Complete, ..booking },
            ),
            transfers: self.transfers + settlement_payouts(booking, actual_duration),
            events: self.events.push(
                VaultEvent::SessionFinalized {
                    booking_id,
                    actual_duration,
                    expert_pay: (booking.rate * actual_duration) as i128,
                },
            ),
            ..self
        }
    }

    /// What reclaiming a stale session returns. Only the booking's user may
    /// do it, only for a booking that is still pending, and only once the
    /// oracle's window has passed.
    pub open spec fn reclaim_stale_session_result(
        self,
        user: Seq<char>,
        booking_id: u64,
        now: u64,
    ) -> Result<(), VaultError> {
        if !self.bookings.contains_key(booking_id) {
            Err(VaultError::BookingNotFound)
        } else if self.bookings[booking_id].user != user {
            Err(VaultError::NotAuthorized)
        } else if self.bookings[booking_id].status != BookingStatus::Pending {
            Err(VaultError::BookingNotPending)
        } else if !reclaim_due(self.bookings[booking_id].created_at, now) {
            Err(VaultError::ReclaimTooEarly)
        } else if self.token.is_none() {
            Err(VaultError::NotInitialized)
        } else {
            Ok(())
        }
    }

    /// The ledger with the booking reclaimed, the whole deposit requested
    /// for its user, and the reclaim announced.
    pub open spec fn with_session_reclaimed(self, booking_id: u64) -> LedgerView {
        let booking = self.bookings[booking_id];
        LedgerView {
            bookings: self.bookings.insert(
                booking_id,
                BookingView { status: BookingStatus::Reclaimed, ..booking },
            ),
            transfers: self.transfers.push(
                TransferView::Payout { to: booking.user, amount: booking.total_deposit },
            ),
            events: self.events.push(
                VaultEvent::SessionReclaimed { booking_id, amount: booking.total_deposit },
            ),
            ..self
        }
    }
}

/// Settles the booking `booking_id` after a session of `actual_duration`
/// seconds, on behalf of `caller`, the authenticated caller.
///
/// Only the oracle may settle: without an oracle on record the call fails
/// with `NotInitialized`, for any other caller with `NotAuthorized`. It
/// fails with `BookingNotFound` for an unknown id, with `BookingNotPending`
/// for a booking that is settled or reclaimed, and with `InvalidAmount`
/// where the pay at the booking's own rate would be negative or more than
/// its deposit. Otherwise the pay is requested for the expert and the rest
/// of the deposit for the user, each unless it is zero, the booking becomes
/// complete, and the settlement is announced.
pub fn finalize_session(
    ledger: &mut EscrowLedger,
    caller: &Address,
    booking_id: u64,
    actual_duration: u64,
) -> (result: Result<(), VaultError>)
    ensures
        result == old(ledger)@.finalize_session_result(caller@, booking_id, actual_duration),
        final(ledger)@ == if result.is_ok() {
            old(ledger)@.with_session_finalized(booking_id, actual_duration)
        } else {
            old(ledger)@
        },
{
    let oracle = match storage::get_oracle(ledger) {
        Some(oracle) => oracle,
        None => { return Err(VaultError::NotInitialized); },
    };
    if !oracle.same_as(caller) {
        return Err(VaultError::NotAuthorized);
    }
    let booking = match storage::get_booking(ledger, booking_id) {
        Some(booking) => booking,
        None => { return Err(VaultError::BookingNotFound); },
    };
    if booking.status != BookingStatus::Pending {
        return Err(VaultError::BookingNotPending);
    }
    let split = match settle(booking.rate, booking.total_deposit, actual_duration) {
        Ok(split) => split,
        Err(e) => { return Err(e); },
    };
    if storage::get_token(ledger).is_none() {
        return Err(VaultError::NotInitialized);
    }
    if split.expert_pay > 0 {
        storage::request_transfer(
            ledger,
            Transfer::Payout { to: booking.expert.clone(), amount: split.expert_pay },
        );
    }
    if split.refund > 0 {
        storage::request_transfer(
            ledger,
            Transfer::Payout { to: booking.user.clone(), amount: split.refund },
        );
    }
    storage::update_booking_status(ledger, booking_id, BookingStatus::Complete);
    events::session_finalized(ledger, booking_id, actual_duration, split.expert_pay);
    assert(final(ledger)@.transfers =~= old(ledger)@.transfers + settlement_payouts(
        booking@,
        actual_duration,
    ));
    Ok(())
}

/// Hands the deposit of the booking `booking_id` back to `user`, the
/// authenticated caller, at the time `now`.
///
/// The call fails with `BookingNotFound` for an unknown id, with
/// `NotAuthorized` where `user` is not the booking's user, with
/// `BookingNotPending` for a booking that is settled or reclaimed, and with
/// `ReclaimTooEarly` unless more than the timeout has passed since the
/// booking was made. Otherwise the whole deposit is requested for the user,
/// the booking becomes reclaimed, and the reclaim is announced.
pub fn reclaim_stale_session(
    ledger: &mut EscrowLedger,
    user: &Address,
    booking_id: u64,
    now: u64,
) -> (result: Result<(), VaultError>)
    ensures
        result == old(ledger)@.reclaim_stale_session_result(user@, booking_id, now),
        final(ledger)@ == if result.is_ok() {
            old(ledger)@.with_session_reclaimed(booking_id)
        } else {
            old(ledger)@
        },
{
    let booking = match storage::get_booking(ledger, booking_id) {
        Some(booking) => booking,
        None => { return Err(VaultError::BookingNotFound); },
    };
    if !booking.user.same_as(user) {
        return Err(VaultError::NotAuthorized);
    }
    if booking.status != BookingStatus::Pending {
        return Err(VaultError::BookingNotPending);
    }
    if !is_reclaim_due(booking.created_at, now) {
        return Err(VaultError::ReclaimTooEarly);
    }
    if storage::get_token(ledger).is_none() {
        return Err(VaultError::NotInitialized);
    }
    storage::request_transfer(
        ledger,
        Transfer::Payout { to: booking.user.clone(), amount: booking.total_deposit },
    );
    storage::update_booking_status(ledger, booking_id, BookingStatus::Reclaimed);
    events::session_reclaimed(ledger, booking_id, booking.total_deposit);
    Ok(())
}

/// Books a session as `create_booking` does where the ledger has room for
/// the booking; where it has none, nothing happens and `None` is returned.
pub fn try_create_booking(
    ledger: &mut EscrowLedger,
    env: &Env,
    user: &Address,
    expert: &Address,
    rate: i128,
    booked_duration: u64,
    now: u64,
) -> (result: Option<Result<u64, VaultError>>)
    ensures
        result == if old(ledger)@.has_room_for_booking(user@, expert@) {
            Some(old(ledger)@.create_booking_result(rate, booked_duration))
        } else {
            None
        },
        final(ledger)@ == if result matches Some(Ok(_)) {
            old(ledger)@.with_new_booking(user@, expert@, rate, booked_duration, now)
        } else {
            old(ledger)@
        },
{
    if !has_room_for_booking(ledger, user, expert) {
        return None;
    }
    Some(create_booking(ledger, env, user, expert, rate, booked_duration, now))
}

/// Whether `expert` may be booked by the standing that `registry` holds of
/// it: a vault that admits verified experts only asks this before it takes
/// a booking, and refuses an unverified or banned expert with
/// `NotAuthorized`.
pub fn require_verified_expert(registry: &RegistryLedger, expert: &Address) -> (result: Result<
    (),
    VaultError,
>)
    ensures
        result == if record_of(registry@.experts, expert@).status == ExpertStatus::Verified {
            Ok::<(), VaultError>(())
        } else {
            Err::<(), VaultError>(VaultError::NotAuthorized)
        },
{
    if registry::contract::get_expert_status(registry, expert) != ExpertStatus::Verified {
        return Err(VaultError::NotAuthorized);
    }
    Ok(())
}

} // verus!
