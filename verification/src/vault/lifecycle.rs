//! What holds of a vault over its whole life, whatever is called on it and
//! in whatever order.

use crate::vault::contract::{settlement_accepted, settlement_payouts};
use crate::vault::error::VaultError;
use crate::vault::storage::{bookings_of, BookingStatus, BookingView, LedgerView, TransferView};
use vstd::prelude::*;

verus! {

/// A call of one of the vault's four operations, with its arguments.
pub enum Call {
    InitializeVault { admin: Seq<char>, token: Seq<char>, oracle: Seq<char> },
    CreateBooking {
        user: Seq<char>,
        expert: Seq<char>,
        rate: i128,
        booked_duration: u64,
        now: u64,
    },
    FinalizeSession { caller: Seq<char>, booking_id: u64, actual_duration: u64 },
    ReclaimStaleSession { user: Seq<char>, booking_id: u64, now: u64 },
}

impl BookingView {
    /// The deposit is positive and is the rate, which is positive too, times
    /// the booked duration.
    pub open spec fn funded(self) -> bool {
        &&& self.rate > 0
        &&& self.total_deposit > 0
        &&& self.total_deposit == self.rate * self.booked_duration
    }

    /// Both bookings agree in everything but, possibly, their status.
    pub open spec fn same_terms(self, other: BookingView) -> bool {
        self == (BookingView { status: self.status, ..other })
    }
}

impl TransferView {
    /// The amount that the transfer moves.
    pub open spec fn amount(self) -> i128 {
        match self {
            TransferView::Deposit { amount, .. } => amount,
            TransferView::Payout { amount, .. } => amount,
        }
    }
}

impl LedgerView {
    /// Whether the call succeeds on this ledger.
    pub open spec fn accepts(self, call: Call) -> bool {
        match call {
            Call::InitializeVault { .. } => self.initialize_vault_result().is_ok(),
            Call::CreateBooking { rate, booked_duration, .. } => self.create_booking_result(
                rate,
                booked_duration,
            ).is_ok(),
            Call::FinalizeSession {
                caller,
                booking_id,
                actual_duration,
            } => self.finalize_session_result(caller, booking_id, actual_duration).is_ok(),
            Call::ReclaimStaleSession { user, booking_id, now } => self.reclaim_stale_session_result(
                user,
                booking_id,
                now,
            ).is_ok(),
        }
    }

    /// The ledger that the call leaves: this one where the call fails.
    pub open spec fn after(self, call: Call) -> LedgerView {
        if !self.accepts(call) {
            self
        } else {
            match call {
                Call::InitializeVault { admin, token, oracle } => self.configured(
                    admin,
                    token,
                    oracle,
                ),
                Call::CreateBooking {
                    user,
                    expert,
                    rate,
                    booked_duration,
                    now,
                } => self.with_new_booking(user, expert, rate, booked_duration, now),
                Call::FinalizeSession {
                    booking_id,
                    actual_duration,
                    ..
                } => self.with_session_finalized(booking_id, actual_duration),
                Call::ReclaimStaleSession { booking_id, .. } => self.with_session_reclaimed(
                    booking_id,
                ),
            }
        }
    }

    /// Whether the call may be made on this ledger: a booking can only be
    /// created while the ledger has room for it.
    pub open spec fn admits(self, call: Call) -> bool {
        match call {
            Call::CreateBooking { user, expert, .. } => self.has_room_for_booking(user, expert),
            _ => true,
        }
    }

    /// The ledger that the calls leave, made one after the other.
    pub open spec fn after_all(self, calls: Seq<Call>) -> LedgerView
        decreases calls.len(),
    {
        if calls.len() == 0 {
            self
        } else {
            self.after_all(calls.drop_last()).after(calls.last())
        }
    }

    /// Whether each of the calls may be made on the ledger that the calls
    /// before it leave.
    pub open spec fn admits_all(self, calls: Seq<Call>) -> bool
        decreases calls.len(),
    {
        calls.len() == 0 || (self.admits_all(calls.drop_last()) && self.after_all(
            calls.drop_last(),
        ).admits(calls.last()))
    }

    /// What holds of every ledger that the four operations alone have
    /// written: administrator, token and oracle are configured together or
    /// not at all, the bookings are those with the ids from one to the
    /// counter, each stored under its own id and funded, and every transfer
    /// moves a positive amount.
    pub open spec fn consistent(self) -> bool {
        &&& self.token.is_some() == self.admin.is_some()
        &&& self.oracle.is_some() == self.admin.is_some()
        &&& forall|id: u64| #[trigger]
            self.bookings.contains_key(id) <==> 1 <= id <= self.booking_counter
        &&& forall|id: u64| #[trigger]
            self.bookings.contains_key(id) ==> self.bookings[id].id == id
                && self.bookings[id].funded()
        &&& forall|i: int|
            0 <= i < self.transfers.len() ==> (#[trigger] self.transfers[i]).amount() > 0
    }
}

/// A call on a consistent ledger leaves a consistent ledger: in particular,
/// every booking's deposit is its rate times its booked duration.
pub proof fn lemma_call_keeps_consistency(s: LedgerView, call: Call)
    requires
        s.consistent(),
        s.admits(call),
    ensures
        s.after(call).consistent(),
{
    let t = s.after(call);
    if s.accepts(call) {
        if let Call::ReclaimStaleSession { booking_id, .. } = call {
            assert(s.bookings[booking_id].funded());
        }
        assert forall|i: int| 0 <= i < t.transfers.len() implies (#[trigger] t.transfers[i]).amount()
            > 0 by {
            if i < s.transfers.len() {
                assert(t.transfers[i] == s.transfers[i]);
            }
        }
    }
}

/// Any number of calls on a consistent ledger leave a consistent ledger.
pub proof fn lemma_calls_keep_consistency(s: LedgerView, calls: Seq<Call>)
    requires
        s.consistent(),
        s.admits_all(calls),
    ensures
        s.after_all(calls).consistent(),
    decreases calls.len(),
{
    if calls.len() > 0 {
        lemma_calls_keep_consistency(s, calls.drop_last());
        lemma_call_keeps_consistency(s.after_all(calls.drop_last()), calls.last());
    }
}

/// A call removes no booking and changes nothing of a booking but its
/// status, and not even that once the booking is settled or reclaimed.
pub proof fn lemma_call_keeps_bookings(s: LedgerView, call: Call, id: u64)
    requires
        s.consistent(),
        s.admits(call),
        s.bookings.contains_key(id),
    ensures
        s.after(call).bookings.contains_key(id),
        s.after(call).bookings[id].same_terms(s.bookings[id]),
        s.bookings[id].status != BookingStatus::Pending ==> s.after(call).bookings[id]
            == s.bookings[id],
{
}

/// Whatever is called, a booking stays on the ledger with its user, its
/// expert, its rate, its duration, its deposit and its time of creation,
/// and its status changes at most once: a booking that is settled or
/// reclaimed stays exactly as it is.
pub proof fn lemma_calls_keep_bookings(s: LedgerView, calls: Seq<Call>, id: u64)
    requires
        s.consistent(),
        s.admits_all(calls),
        s.bookings.contains_key(id),
    ensures
        s.after_all(calls).bookings.contains_key(id),
        s.after_all(calls).bookings[id].same_terms(s.bookings[id]),
        s.bookings[id].status != BookingStatus::Pending ==> s.after_all(calls).bookings[id]
            == s.bookings[id],
    decreases calls.len(),
{
    if calls.len() > 0 {
        let before = s.after_all(calls.drop_last());
        lemma_calls_keep_bookings(s, calls.drop_last(), id);
        lemma_calls_keep_consistency(s, calls.drop_last());
        lemma_call_keeps_bookings(before, calls.last(), id);
    }
}

/// Once the oracle has settled a booking, the booking is complete for good.
/// Whatever is called in between, settling it again fails: for the oracle
/// with `BookingNotPending`, for anybody else with `NotAuthorized`. So does
/// reclaiming it: for its user with `BookingNotPending`, for anybody else
/// with `NotAuthorized`.
pub proof fn lemma_finalized_session_stays_closed(
    s: LedgerView,
    caller: Seq<char>,
    booking_id: u64,
    actual_duration: u64,
    calls: Seq<Call>,
    later_caller: Seq<char>,
    later_duration: u64,
    later_user: Seq<char>,
    later_now: u64,
)
    requires
        s.consistent(),
        s.finalize_session_result(caller, booking_id, actual_duration).is_ok(),
        s.with_session_finalized(booking_id, actual_duration).admits_all(calls),
    ensures
        ({
            let t = s.with_session_finalized(booking_id, actual_duration).after_all(calls);
            &&& t.bookings.contains_key(booking_id)
            &&& t.bookings[booking_id].status == BookingStatus::Complete
            &&& t.finalize_session_result(later_caller, booking_id, later_duration) == Err::<
                (),
                VaultError,
            >(
                if later_caller == caller {
                    VaultError::BookingNotPending
                } else {
                    VaultError::NotAuthorized
                },
            )
            &&& t.reclaim_stale_session_result(later_user, booking_id, later_now) == Err::<
                (),
                VaultError,
            >(
                if later_user == s.bookings[booking_id].user {
                    VaultError::BookingNotPending
                } else {
                    VaultError::NotAuthorized
                },
            )
        }),
{
    let call = Call::FinalizeSession { caller, booking_id, actual_duration };
    assert(s.admits(call));
    assert(s.after(call) == s.with_session_finalized(booking_id, actual_duration));
    lemma_call_keeps_consistency(s, call);
    lemma_calls_keep_bookings(s.after(call), calls, booking_id);
    lemma_configuration_is_fixed(s.after(call), calls);
}

/// Once its user has reclaimed a booking, the booking is reclaimed for good.
/// Whatever is called in between, reclaiming it again fails: for its user
/// with `BookingNotPending`, for anybody else with `NotAuthorized`. So does
/// settling it: for the oracle with `BookingNotPending`, for anybody else
/// with `NotAuthorized`.
pub proof fn lemma_reclaimed_session_stays_closed(
    s: LedgerView,
    user: Seq<char>,
    booking_id: u64,
    now: u64,
    calls: Seq<Call>,
    later_caller: Seq<char>,
    later_duration: u64,
    later_user: Seq<char>,
    later_now: u64,
)
    requires
        s.consistent(),
        s.reclaim_stale_session_result(user, booking_id, now).is_ok(),
        s.with_session_reclaimed(booking_id).admits_all(calls),
    ensures
        ({
            let t = s.with_session_reclaimed(booking_id).after_all(calls);
            &&& t.bookings.contains_key(booking_id)
            &&& t.bookings[booking_id].status == BookingStatus::Reclaimed
            &&& t.reclaim_stale_session_result(later_user, booking_id, later_now) == Err::<
                (),
                VaultError,
            >(
                if later_user == user {
                    VaultError::BookingNotPending
                } else {
                    VaultError::NotAuthorized
                },
            )
            &&& t.finalize_session_result(later_caller, booking_id, later_duration) == Err::<
                (),
                VaultError,
            >(
                if s.oracle == Some(later_caller) {
                    VaultError::BookingNotPending
                } else {
                    VaultError::NotAuthorized
                },
            )
        }),
{
    let call = Call::ReclaimStaleSession { user, booking_id, now };
    assert(s.admits(call));
    assert(s.after(call) == s.with_session_reclaimed(booking_id));
    lemma_call_keeps_consistency(s, call);
    lemma_calls_keep_bookings(s.after(call), calls, booking_id);
    lemma_configuration_is_fixed(s.after(call), calls);
}

/// The booking counter never goes back.
pub proof fn lemma_counter_never_goes_back(s: LedgerView, calls: Seq<Call>)
    requires
        s.admits_all(calls),
    ensures
        s.booking_counter <= s.after_all(calls).booking_counter,
    decreases calls.len(),
{
    if calls.len() > 0 {
        lemma_counter_never_goes_back(s, calls.drop_last());
    }
}

/// Booking ids strictly increase: a booking created after another one,
/// whatever is called in between, gets a greater id.
pub proof fn lemma_booking_ids_increase(
    s: LedgerView,
    user: Seq<char>,
    expert: Seq<char>,
    rate: i128,
    booked_duration: u64,
    now: u64,
    calls: Seq<Call>,
    later_rate: i128,
    later_duration: u64,
)
    requires
        s.booking_counter < u64::MAX,
        s.create_booking_result(rate, booked_duration).is_ok(),
        s.with_new_booking(user, expert, rate, booked_duration, now).admits_all(calls),
        s.with_new_booking(user, expert, rate, booked_duration, now).after_all(
            calls,
        ).booking_counter < u64::MAX,
        s.with_new_booking(user, expert, rate, booked_duration, now).after_all(
            calls,
        ).create_booking_result(later_rate, later_duration).is_ok(),
    ensures
        s.create_booking_result(rate, booked_duration).unwrap() < s.with_new_booking(
            user,
            expert,
            rate,
            booked_duration,
            now,
        ).after_all(calls).create_booking_result(later_rate, later_duration).unwrap(),
{
    lemma_counter_never_goes_back(
        s.with_new_booking(user, expert, rate, booked_duration, now),
        calls,
    );
}

/// No booking id is used twice: the id that a new booking gets on a
/// consistent ledger is greater than the id of every booking made before,
/// none of which ever leaves the ledger.
pub proof fn lemma_booking_id_is_fresh(s: LedgerView, rate: i128, booked_duration: u64, id: u64)
    requires
        s.consistent(),
        s.booking_counter < u64::MAX,
        s.create_booking_result(rate, booked_duration).is_ok(),
        s.bookings.contains_key(id),
    ensures
        id < s.create_booking_result(rate, booked_duration).unwrap(),
{
}

/// Once the vault has an administrator, its administrator, its settlement
/// token and its oracle never change.
pub proof fn lemma_configuration_is_fixed(s: LedgerView, calls: Seq<Call>)
    requires
        s.admin.is_some(),
    ensures
        s.after_all(calls).admin == s.admin,
        s.after_all(calls).token == s.token,
        s.after_all(calls).oracle == s.oracle,
    decreases calls.len(),
{
    if calls.len() > 0 {
        lemma_configuration_is_fixed(s, calls.drop_last());
    }
}

/// Transfers and notifications are only ever added: what was requested or
/// published before the calls still stands after them, in place.
pub proof fn lemma_logs_only_grow(s: LedgerView, calls: Seq<Call>)
    ensures
        s.transfers.is_prefix_of(s.after_all(calls).transfers),
        s.events.is_prefix_of(s.after_all(calls).events),
    decreases calls.len(),
{
    if calls.len() > 0 {
        lemma_logs_only_grow(s, calls.drop_last());
    }
}

/// What the transfers of a list leave in custody, all told: the deposits
/// less the payouts.
pub open spec fn custody(transfers: Seq<TransferView>) -> int
    decreases transfers.len(),
{
    if transfers.len() == 0 {
        0
    } else {
        custody(transfers.drop_last()) + match transfers.last() {
            TransferView::Deposit { amount, .. } => amount as int,
            TransferView::Payout { amount, .. } => -(amount as int),
        }
    }
}

/// What the vault owes on the booking `id`: its deposit while it is pending,
/// nothing once it is settled or reclaimed.
pub open spec fn owed_on(bookings: Map<u64, BookingView>, id: u64) -> int {
    if bookings.contains_key(id) && bookings[id].status == BookingStatus::Pending {
        bookings[id].total_deposit as int
    } else {
        0
    }
}

/// What the vault owes on the bookings with the ids from one to `upto`.
pub open spec fn owed(bookings: Map<u64, BookingView>, upto: u64) -> int
    decreases upto,
{
    if upto == 0 {
        0
    } else {
        owed(bookings, (upto - 1) as u64) + owed_on(bookings, upto)
    }
}

impl LedgerView {
    /// Custody holds exactly what the vault owes on its pending bookings.
    pub open spec fn balanced(self) -> bool {
        custody(self.transfers) == owed(self.bookings, self.booking_counter)
    }
}

/// Custody after two lists of transfers is custody after the first and
/// custody after the second together.
proof fn lemma_custody_adds_up(first: Seq<TransferView>, second: Seq<TransferView>)
    ensures
        custody(first + second) == custody(first) + custody(second),
    decreases second.len(),
{
    if second.len() == 0 {
        assert(first + second =~= first);
    } else {
        lemma_custody_adds_up(first, second.drop_last());
        assert((first + second).drop_last() =~= first + second.drop_last());
        assert((first + second).last() == second.last());
    }
}

/// A payout alone leaves custody short of its amount.
proof fn lemma_custody_of_payout(to: Seq<char>, amount: i128)
    ensures
        custody(seq![TransferView::Payout { to, amount }]) == -amount,
{
    let payout = seq![TransferView::Payout { to, amount }];
    assert(payout.drop_last().len() == 0);
    assert(custody(payout.drop_last()) == 0);
}

/// The transfers that settle a booking pay out its whole deposit, no more
/// and no less: the expert's pay and the user's refund together.
pub proof fn lemma_settlement_pays_out_deposit(booking: BookingView, actual_duration: u64)
    requires
        settlement_accepted(booking.rate, booking.total_deposit, actual_duration),
    ensures
        custody(settlement_payouts(booking, actual_duration)) == -booking.total_deposit,
{
    let expert_pay = booking.rate * actual_duration;
    let refund = booking.total_deposit - expert_pay;
    let to_expert = if expert_pay > 0 {
        seq![TransferView::Payout { to: booking.expert, amount: expert_pay as i128 }]
    } else {
        Seq::empty()
    };
    let to_user = if refund > 0 {
        seq![TransferView::Payout { to: booking.user, amount: refund as i128 }]
    } else {
        Seq::empty()
    };
    assert(settlement_payouts(booking, actual_duration) == to_expert + to_user);
    lemma_custody_adds_up(to_expert, to_user);
    if expert_pay > 0 {
        lemma_custody_of_payout(booking.expert, expert_pay as i128);
    }
    if refund > 0 {
        lemma_custody_of_payout(booking.user, refund as i128);
    }
}

/// A booking stored under an id beyond `upto` changes nothing of what is
/// owed up to there.
proof fn lemma_owed_ignores_later(
    bookings: Map<u64, BookingView>,
    upto: u64,
    id: u64,
    booking: BookingView,
)
    requires
        upto < id,
    ensures
        owed(bookings.insert(id, booking), upto) == owed(bookings, upto),
    decreases upto,
{
    if upto > 0 {
        lemma_owed_ignores_later(bookings, (upto - 1) as u64, id, booking);
    }
}

/// Replacing the booking under an id up to `upto` changes what is owed by
/// the difference between what is owed on the two.
proof fn lemma_owed_follows_booking(
    bookings: Map<u64, BookingView>,
    upto: u64,
    id: u64,
    booking: BookingView,
)
    requires
        1 <= id <= upto,
    ensures
        owed(bookings.insert(id, booking), upto) == owed(bookings, upto) - owed_on(bookings, id)
            + owed_on(bookings.insert(id, booking), id),
    decreases upto,
{
    if id == upto {
        lemma_owed_ignores_later(bookings, (upto - 1) as u64, id, booking);
    } else {
        lemma_owed_follows_booking(bookings, (upto - 1) as u64, id, booking);
    }
}

/// No value is created or destroyed: a call on a consistent ledger whose
/// custody holds exactly what is owed on its pending bookings leaves such a
/// ledger.
pub proof fn lemma_call_keeps_balance(s: LedgerView, call: Call)
    requires
        s.consistent(),
        s.balanced(),
        s.admits(call),
    ensures
        s.after(call).balanced(),
{
    let t = s.after(call);
    if s.accepts(call) {
        match call {
            Call::InitializeVault { .. } => {},
            Call::CreateBooking { user, expert, rate, booked_duration, now } => {
                let id = s.next_booking_id();
                assert(t.transfers.drop_last() =~= s.transfers);
                lemma_owed_ignores_later(s.bookings, s.booking_counter, id, t.bookings[id]);
            },
            Call::FinalizeSession { caller, booking_id, actual_duration } => {
                let booking = s.bookings[booking_id];
                lemma_settlement_pays_out_deposit(booking, actual_duration);
                lemma_custody_adds_up(s.transfers, settlement_payouts(booking, actual_duration));
                lemma_owed_follows_booking(
                    s.bookings,
                    s.booking_counter,
                    booking_id,
                    t.bookings[booking_id],
                );
            },
            Call::ReclaimStaleSession { user, booking_id, now } => {
                assert(t.transfers.drop_last() =~= s.transfers);
                lemma_owed_follows_booking(
                    s.bookings,
                    s.booking_counter,
                    booking_id,
                    t.bookings[booking_id],
                );
            },
        }
    }
}

/// Creating a booking is the only way in which custody grows: every other
/// call on a consistent ledger leaves custody as it was or takes from it.
pub proof fn lemma_only_bookings_add_to_custody(s: LedgerView, call: Call)
    requires
        s.consistent(),
        !(call is CreateBooking),
    ensures
        custody(s.after(call).transfers) <= custody(s.transfers),
{
    let t = s.after(call);
    if s.accepts(call) {
        match call {
            Call::FinalizeSession { booking_id, actual_duration, .. } => {
                let booking = s.bookings[booking_id];
                lemma_settlement_pays_out_deposit(booking, actual_duration);
                lemma_custody_adds_up(s.transfers, settlement_payouts(booking, actual_duration));
            },
            Call::ReclaimStaleSession { booking_id, .. } => {
                assert(s.bookings[booking_id].funded());
                assert(t.transfers.drop_last() =~= s.transfers);
            },
            _ => {},
        }
    }
}

/// Whatever is called on a vault that started out empty, custody holds
/// exactly what the vault owes on its pending bookings.
pub proof fn lemma_calls_keep_balance(s: LedgerView, calls: Seq<Call>)
    requires
        s.consistent(),
        s.balanced(),
        s.admits_all(calls),
    ensures
        s.after_all(calls).balanced(),
    decreases calls.len(),
{
    if calls.len() > 0 {
        lemma_calls_keep_balance(s, calls.drop_last());
        lemma_calls_keep_consistency(s, calls.drop_last());
        lemma_call_keeps_balance(s.after_all(calls.drop_last()), calls.last());
    }
}

impl BookingView {
    /// The booking's user where `as_user` is set, its expert otherwise.
    pub open spec fn party(self, as_user: bool) -> Seq<char> {
        if as_user {
            self.user
        } else {
            self.expert
        }
    }
}

/// The ids from one to `upto` of the bookings in which `party` is the user,
/// where `as_user` is set, or else the expert; oldest first.
pub open spec fn bookings_with(
    bookings: Map<u64, BookingView>,
    upto: u64,
    party: Seq<char>,
    as_user: bool,
) -> Seq<u64>
    decreases upto,
{
    if upto == 0 {
        Seq::empty()
    } else {
        let earlier = bookings_with(bookings, (upto - 1) as u64, party, as_user);
        if bookings.contains_key(upto) && bookings[upto].party(as_user) == party {
            earlier.push(upto)
        } else {
            earlier
        }
    }
}

impl LedgerView {
    /// The two lists of booking ids are complete and exact: each party is
    /// listed with the ids of the bookings it funded, and with the ids of
    /// those it serves as expert, oldest first.
    pub open spec fn indexed(self) -> bool {
        forall|party: Seq<char>|
            #![trigger bookings_of(self.user_bookings, party)]
            #![trigger bookings_of(self.expert_bookings, party)]
            {
                &&& bookings_of(self.user_bookings, party) == bookings_with(
                    self.bookings,
                    self.booking_counter,
                    party,
                    true,
                )
                &&& bookings_of(self.expert_bookings, party) == bookings_with(
                    self.bookings,
                    self.booking_counter,
                    party,
                    false,
                )
            }
    }
}

/// A booking stored under an id beyond `upto` changes nothing of the ids
/// listed up to there.
proof fn lemma_bookings_with_ignores_later(
    bookings: Map<u64, BookingView>,
    upto: u64,
    id: u64,
    booking: BookingView,
    party: Seq<char>,
    as_user: bool,
)
    requires
        upto < id,
    ensures
        bookings_with(bookings.insert(id, booking), upto, party, as_user) == bookings_with(
            bookings,
            upto,
            party,
            as_user,
        ),
    decreases upto,
{
    if upto > 0 {
        lemma_bookings_with_ignores_later(
            bookings,
            (upto - 1) as u64,
            id,
            booking,
            party,
            as_user,
        );
    }
}

/// Replacing a booking by one with the same user and expert changes nothing
/// of the ids listed.
proof fn lemma_bookings_with_follows_parties(
    bookings: Map<u64, BookingView>,
    upto: u64,
    id: u64,
    booking: BookingView,
    party: Seq<char>,
    as_user: bool,
)
    requires
        bookings.contains_key(id),
        booking.party(as_user) == bookings[id].party(as_user),
    ensures
        bookings_with(bookings.insert(id, booking), upto, party, as_user) == bookings_with(
            bookings,
            upto,
            party,
            as_user,
        ),
    decreases upto,
{
    if upto > 0 {
        lemma_bookings_with_follows_parties(
            bookings,
            (upto - 1) as u64,
            id,
            booking,
            party,
            as_user,
        );
    }
}

/// A call on a consistent ledger whose lists of booking ids are complete
/// and exact leaves them so: each new booking is appended to the list of
/// its user and to that of its expert, and nothing is ever taken off.
pub proof fn lemma_call_keeps_index(s: LedgerView, call: Call)
    requires
        s.consistent(),
        s.indexed(),
        s.admits(call),
    ensures
        s.after(call).indexed(),
{
    let t = s.after(call);
    if s.accepts(call) {
        assert forall|party: Seq<char>|
            bookings_of(t.user_bookings, party) == bookings_with(
                t.bookings,
                t.booking_counter,
                party,
                true,
            ) && bookings_of(t.expert_bookings, party) == bookings_with(
                t.bookings,
                t.booking_counter,
                party,
                false,
            ) by {
            let upto = s.booking_counter;
            match call {
                Call::InitializeVault { .. } => {},
                Call::CreateBooking { .. } => {
                    let id = s.next_booking_id();
                    lemma_bookings_with_ignores_later(
                        s.bookings,
                        upto,
                        id,
                        t.bookings[id],
                        party,
                        true,
                    );
                    lemma_bookings_with_ignores_later(
                        s.bookings,
                        upto,
                        id,
                        t.bookings[id],
                        party,
                        false,
                    );
                },
                Call::FinalizeSession { booking_id: id, .. }
                | Call::ReclaimStaleSession { booking_id: id, .. } => {
                    lemma_bookings_with_follows_parties(
                        s.bookings,
                        upto,
                        id,
                        t.bookings[id],
                        party,
                        true,
                    );
                    lemma_bookings_with_follows_parties(
                        s.bookings,
                        upto,
                        id,
                        t.bookings[id],
                        party,
                        false,
                    );
                },
            }
            assert(bookings_of(s.user_bookings, party) == bookings_with(
                s.bookings,
                upto,
                party,
                true,
            ));
            assert(bookings_of(s.expert_bookings, party) == bookings_with(
                s.bookings,
                upto,
                party,
                false,
            ));
        }
    }
}

/// Whatever is called on a vault that started out empty, its lists of
/// booking ids are complete and exact.
pub proof fn lemma_calls_keep_index(s: LedgerView, calls: Seq<Call>)
    requires
        s.consistent(),
        s.indexed(),
        s.admits_all(calls),
    ensures
        s.after_all(calls).indexed(),
    decreases calls.len(),
{
    if calls.len() > 0 {
        lemma_calls_keep_index(s, calls.drop_last());
        lemma_calls_keep_consistency(s, calls.drop_last());
        lemma_call_keeps_index(s.after_all(calls.drop_last()), calls.last());
    }
}

/// A vault starts out sound: the empty ledger is consistent and balanced,
/// and its lists of booking ids are complete and exact.
pub proof fn lemma_empty_ledger_is_sound()
    ensures
        LedgerView::empty().consistent(),
        LedgerView::empty().balanced(),
        LedgerView::empty().indexed(),
{
}

} // verus!
