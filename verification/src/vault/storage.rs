//! The escrow ledger: the vault's configuration, its bookings, and the
//! transfers and notifications that its operations have produced.

use crate::address::{key_of, Address};
use crate::table::AddressTable;
use crate::vault::events::VaultEvent;
use crate::vault::id_list::{copy_list, has_room, list_len, listed, new_list, push_back};
use soroban_sdk::Env;
use std::collections::HashMap;
use vstd::prelude::*;

verus! {

/// Where a booking stands in its life.
#[derive(Clone, Copy, Debug, PartialEq, Eq, Structural)]
pub enum BookingStatus {
    /// Funded and waiting for the oracle's report.
    Pending,
    /// Settled by the oracle.
    Complete,
    /// Taken back by the user after the oracle's window had passed.
    Reclaimed,
}

/// One escrowed session agreement between a user and an expert.
#[derive(Debug, PartialEq, Eq)]
pub struct Booking {
    pub id: u64,
    pub expert: Address,
    pub user: Address,
    /// Price per second, in the token's smallest unit.
    pub rate: i128,
    /// What the user deposited: the rate times the booked duration.
    pub total_deposit: i128,
    /// Booked duration in seconds.
    pub booked_duration: u64,
    pub status: BookingStatus,
    /// When the booking was created, in seconds.
    pub created_at: u64,
}

/// A booking as the contracts speak of it, with each party named by its key.
pub struct BookingView {
    pub id: u64,
    pub expert: Seq<char>,
    pub user: Seq<char>,
    pub rate: i128,
    pub total_deposit: i128,
    pub booked_duration: u64,
    pub status: BookingStatus,
    pub created_at: u64,
}

impl View for Booking {
    type V = BookingView;

    open spec fn view(&self) -> BookingView {
        BookingView {
            id: self.id,
            expert: self.expert@,
            user: self.user@,
            rate: self.rate,
            total_deposit: self.total_deposit,
            booked_duration: self.booked_duration,
            status: self.status,
            created_at: self.created_at,
        }
    }
}

impl Clone for Booking {
    fn clone(&self) -> (copy: Booking)
        ensures
            copy@ == self@,
    {
        Booking {
            id: self.id,
            expert: self.expert.clone(),
            user: self.user.clone(),
            rate: self.rate,
            total_deposit: self.total_deposit,
            booked_duration: self.booked_duration,
            status: self.status,
            created_at: self.created_at,
        }
    }
}

/// An instruction to the token facility. The vault's own account is its
/// custody; the other side of every transfer is a party to a booking.
#[derive(Debug, PartialEq, Eq)]
pub enum Transfer {
    /// Move `amount` from `from` into custody.
    Deposit { from: Address, amount: i128 },
    /// Move `amount` out of custody to `to`.
    Payout { to: Address, amount: i128 },
}

/// A transfer as the contracts speak of it.
pub enum TransferView {
    Deposit { from: Seq<char>, amount: i128 },
    Payout { to: Seq<char>, amount: i128 },
}

impl View for Transfer {
    type V = TransferView;

    open spec fn view(&self) -> TransferView {
        match self {
            Transfer::Deposit { from, amount } => TransferView::Deposit {
                from: from@,
                amount: *amount,
            },
            Transfer::Payout { to, amount } => TransferView::Payout { to: to@, amount: *amount },
        }
    }
}

impl Clone for Transfer {
    fn clone(&self) -> (copy: Transfer)
        ensures
            copy@ == self@,
    {
        match self {
            Transfer::Deposit { from, amount } => Transfer::Deposit {
                from: from.clone(),
                amount: *amount,
            },
            Transfer::Payout { to, amount } => Transfer::Payout { to: to.clone(), amount: *amount },
        }
    }
}

/// What the ledger holds of a booking besides its id, which is the key that
/// the booking is stored under.
struct Terms {
    expert: Address,
    user: Address,
    rate: i128,
    total_deposit: i128,
    booked_duration: u64,
    status: BookingStatus,
    created_at: u64,
}

impl Terms {
    /// The booking with these terms and the given id.
    closed spec fn with_id(&self, id: u64) -> BookingView {
        BookingView {
            id,
            expert: self.expert@,
            user: self.user@,
            rate: self.rate,
            total_deposit: self.total_deposit,
            booked_duration: self.booked_duration,
            status: self.status,
            created_at: self.created_at,
        }
    }

    /// The terms of `booking`.
    fn of(booking: &Booking) -> (terms: Terms)
        ensures
            terms.with_id(booking.id) == booking@,
    {
        Terms {
            expert: booking.expert.clone(),
            user: booking.user.clone(),
            rate: booking.rate,
            total_deposit: booking.total_deposit,
            booked_duration: booking.booked_duration,
            status: booking.status,
            created_at: booking.created_at,
        }
    }

    /// The booking with these terms and the given id.
    fn booking(&self, id: u64) -> (booking: Booking)
        ensures
            booking@ == self.with_id(id),
    {
        Booking {
            id,
            expert: self.expert.clone(),
            user: self.user.clone(),
            rate: self.rate,
            total_deposit: self.total_deposit,
            booked_duration: self.booked_duration,
            status: self.status,
            created_at: self.created_at,
        }
    }
}

/// The bookings of a table, each with the id that it is stored under.
closed spec fn booking_views(bookings: Map<u64, Terms>) -> Map<u64, BookingView> {
    Map::new(|id: u64| bookings.contains_key(id), |id: u64| bookings[id].with_id(id))
}

/// The transfers of a list, each as the contracts speak of it.
pub open spec fn transfer_views(transfers: Seq<Transfer>) -> Seq<TransferView> {
    transfers.map_values(|t: Transfer| t@)
}

/// The ids of the lists of a table.
closed spec fn listed_ids(lists: Map<Seq<char>, soroban_sdk::Vec<u64>>) -> Map<Seq<char>, Seq<u64>> {
    lists.map_values(|list: soroban_sdk::Vec<u64>| listed(list))
}

/// The booking ids that an index lists for a party: none where the index
/// does not know the party.
pub open spec fn bookings_of(index: Map<Seq<char>, Seq<u64>>, party: Seq<char>) -> Seq<u64> {
    if index.contains_key(party) {
        index[party]
    } else {
        Seq::empty()
    }
}

/// Everything the vault keeps: its configuration, the booking counter, the
/// bookings by id, the booking ids by user and by expert, and the transfers
/// and notifications produced so far.
pub struct EscrowLedger {
    admin: Option<Address>,
    token: Option<Address>,
    oracle: Option<Address>,
    booking_counter: u64,
    bookings: HashMap<u64, Terms>,
    user_bookings: AddressTable<soroban_sdk::Vec<u64>>,
    expert_bookings: AddressTable<soroban_sdk::Vec<u64>>,
    transfers: Vec<Transfer>,
    events: Vec<VaultEvent>,
}

/// The ledger as the contracts speak of it.
#[verifier::ext_equal]
pub struct LedgerView {
    /// Who may perform privileged setup, once configured.
    pub admin: Option<Seq<char>>,
    /// The token contract that every transfer goes through, once configured.
    pub token: Option<Seq<char>>,
    /// Who may finalize sessions, once configured.
    pub oracle: Option<Seq<char>>,
    /// The id given to the newest booking; zero before the first.
    pub booking_counter: u64,
    pub bookings: Map<u64, BookingView>,
    pub user_bookings: Map<Seq<char>, Seq<u64>>,
    pub expert_bookings: Map<Seq<char>, Seq<u64>>,
    /// The transfers requested so far, oldest first.
    pub transfers: Seq<TransferView>,
    /// The notifications published so far, oldest first.
    pub events: Seq<VaultEvent>,
}

impl LedgerView {
    /// The ledger of a vault that has not been set up and holds nothing.
    pub open spec fn empty() -> LedgerView {
        LedgerView {
            admin: None,
            token: None,
            oracle: None,
            booking_counter: 0,
            bookings: Map::empty(),
            user_bookings: Map::empty(),
            expert_bookings: Map::empty(),
            transfers: Seq::empty(),
            events: Seq::empty(),
        }
    }
}

impl View for EscrowLedger {
    type V = LedgerView;

    closed spec fn view(&self) -> LedgerView {
        LedgerView {
            admin: key_of(self.admin),
            token: key_of(self.token),
            oracle: key_of(self.oracle),
            booking_counter: self.booking_counter,
            bookings: booking_views(self.bookings@),
            user_bookings: listed_ids(self.user_bookings@),
            expert_bookings: listed_ids(self.expert_bookings@),
            transfers: transfer_views(self.transfers@),
            events: self.events@,
        }
    }
}

impl EscrowLedger {
    /// Every booking is stored under its own id.
    pub proof fn lemma_stored_under_own_id(&self)
        ensures
            forall|id: u64| #[trigger]
                self@.bookings.contains_key(id) ==> self@.bookings[id].id == id,
    {
    }

    /// The ledger of a vault that has not been set up and holds nothing.
    pub fn new() -> (ledger: EscrowLedger)
        ensures
            ledger@ == LedgerView::empty(),
    {
        EscrowLedger::restore(None, None, None, 0)
    }

    /// A ledger with the given configuration and booking counter, and with
    /// no bookings, transfers or notifications.
    pub fn restore(
        admin: Option<Address>,
        token: Option<Address>,
        oracle: Option<Address>,
        booking_counter: u64,
    ) -> (ledger: EscrowLedger)
        ensures
            ledger@ == (LedgerView {
                admin: key_of(admin),
                token: key_of(token),
                oracle: key_of(oracle),
                booking_counter,
                ..LedgerView::empty()
            }),
    {
        let ledger = EscrowLedger {
            admin,
            token,
            oracle,
            booking_counter,
            bookings: HashMap::new(),
            user_bookings: AddressTable::new(),
            expert_bookings: AddressTable::new(),
            transfers: Vec::new(),
            events: Vec::new(),
        };
        assert(ledger@.bookings =~= Map::empty());
        assert(ledger@.user_bookings =~= Map::empty());
        assert(ledger@.expert_bookings =~= Map::empty());
        assert(ledger@.transfers =~= Seq::empty());
        ledger
    }
}

/// A copy of an address that may be absent.
fn copy_of(address: &Option<Address>) -> (copy: Option<Address>)
    ensures
        key_of(copy) == key_of(*address),
{
    match address {
        Some(a) => Some(a.clone()),
        None => None,
    }
}

// --- Admin ---
/// Whether an administrator is on record.
pub fn has_admin(ledger: &EscrowLedger) -> (present: bool)
    ensures
        present == ledger@.admin.is_some(),
{
    ledger.admin.is_some()
}

/// Records `admin` as the administrator.
pub fn set_admin(ledger: &mut EscrowLedger, admin: &Address)
    ensures
        final(ledger)@ == (LedgerView { admin: Some(admin@), ..old(ledger)@ }),
{
    ledger.admin = Some(admin.clone());
}

/// The administrator, if one is on record.
pub fn get_admin(ledger: &EscrowLedger) -> (admin: Option<Address>)
    ensures
        key_of(admin) == ledger@.admin,
{
    copy_of(&ledger.admin)
}

// --- Token ---
/// Records `token` as the settlement token.
pub fn set_token(ledger: &mut EscrowLedger, token: &Address)
    ensures
        final(ledger)@ == (LedgerView { token: Some(token@), ..old(ledger)@ }),
{
    ledger.token = Some(token.clone());
}

/// The settlement token, if one is on record.
pub fn get_token(ledger: &EscrowLedger) -> (token: Option<Address>)
    ensures
        key_of(token) == ledger@.token,
{
    copy_of(&ledger.token)
}

// --- Oracle ---
/// Records `oracle` as the oracle.
pub fn set_oracle(ledger: &mut EscrowLedger, oracle: &Address)
    ensures
        final(ledger)@ == (LedgerView { oracle: Some(oracle@), ..old(ledger)@ }),
{
    ledger.oracle = Some(oracle.clone());
}

/// The oracle, if one is on record.
pub fn get_oracle(ledger: &EscrowLedger) -> (oracle: Option<Address>)
    ensures
        key_of(oracle) == ledger@.oracle,
{
    copy_of(&ledger.oracle)
}

// --- Booking counter ---
/// The id given to the newest booking; zero before the first.
pub fn booking_counter(ledger: &EscrowLedger) -> (counter: u64)
    ensures
        counter == ledger@.booking_counter,
{
    ledger.booking_counter
}

/// Allocates the next booking id: one more than the counter, which is moved
/// on to it at once.
pub fn get_next_booking_id(ledger: &mut EscrowLedger) -> (next: u64)
    requires
        old(ledger)@.booking_counter < u64::MAX,
    ensures
        next == old(ledger)@.booking_counter + 1,
        final(ledger)@ == (LedgerView { booking_counter: next, ..old(ledger)@ }),
{
    let next: u64 = ledger.booking_counter + 1;
    ledger.booking_counter = next;
    next
}

// --- Bookings ---
/// Stores `booking` under its id, in place of any booking stored there.
pub fn save_booking(ledger: &mut EscrowLedger, booking: &Booking)
    ensures
        final(ledger)@ == (LedgerView {
            bookings: old(ledger)@.bookings.insert(booking.id, booking@),
            ..old(ledger)@
        }),
{
    broadcast use vstd::std_specs::hash::group_hash_axioms;

    ledger.bookings.insert(booking.id, Terms::of(booking));
    assert(final(ledger)@.bookings =~= old(ledger)@.bookings.insert(booking.id, booking@));
}

/// The booking stored under `booking_id`, if there is one.
pub fn get_booking(ledger: &EscrowLedger, booking_id: u64) -> (found: Option<Booking>)
    ensures
        match found {
            Some(booking) => {
                &&& ledger@.bookings.contains_key(booking_id)
                &&& booking@ == ledger@.bookings[booking_id]
                &&& booking.id == booking_id
            },
            None => !ledger@.bookings.contains_key(booking_id),
        },
{
    broadcast use vstd::std_specs::hash::group_hash_axioms;

    match ledger.bookings.get(&booking_id) {
        Some(terms) => Some(terms.booking(booking_id)),
        None => None,
    }
}

/// Sets the status of the booking stored under `booking_id` and leaves the
/// rest of it alone. Without such a booking nothing changes.
pub fn update_booking_status(ledger: &mut EscrowLedger, booking_id: u64, status: BookingStatus)
    ensures
        old(ledger)@.bookings.contains_key(booking_id) ==> final(ledger)@ == (LedgerView {
            bookings: old(ledger)@.bookings.insert(
                booking_id,
                BookingView { status, ..old(ledger)@.bookings[booking_id] },
            ),
            ..old(ledger)@
        }),
        !old(ledger)@.bookings.contains_key(booking_id) ==> final(ledger)@ == old(ledger)@,
{
    if let Some(mut booking) = get_booking(ledger, booking_id) {
        booking.status = status;
        save_booking(ledger, &booking);
    }
}

// --- User and expert booking lists ---
/// The list that a table holds for `party`, or a new and empty one.
fn list_of(lists: &AddressTable<soroban_sdk::Vec<u64>>, env: &Env, party: &Address) -> (list:
    soroban_sdk::Vec<u64>)
    ensures
        listed(list) == bookings_of(listed_ids(lists@), party@),
{
    match lists.get(party) {
        Some(list) => copy_list(list),
        None => new_list(env),
    }
}

/// Whether the list that a table holds for `party` can take one more id.
fn list_has_room(lists: &AddressTable<soroban_sdk::Vec<u64>>, party: &Address) -> (room: bool)
    ensures
        room == has_room(bookings_of(listed_ids(lists@), party@)),
{
    match lists.get(party) {
        Some(list) => list_len(list) < u32::MAX,
        None => true,
    }
}

/// Appends `booking_id` to the list that a table holds for `party`.
fn append(
    lists: &mut AddressTable<soroban_sdk::Vec<u64>>,
    env: &Env,
    party: &Address,
    booking_id: u64,
)
    requires
        has_room(bookings_of(listed_ids(old(lists)@), party@)),
    ensures
        listed_ids(final(lists)@) == listed_ids(old(lists)@).insert(
            party@,
            bookings_of(listed_ids(old(lists)@), party@).push(booking_id),
        ),
{
    let mut list = list_of(lists, env, party);
    push_back(&mut list, booking_id);
    lists.insert(party.clone(), list);
    assert(listed_ids(final(lists)@) =~= listed_ids(old(lists)@).insert(
        party@,
        bookings_of(listed_ids(old(lists)@), party@).push(booking_id),
    ));
}

/// Whether the list of the bookings that `user` funded can take one more
/// id.
pub fn user_list_has_room(ledger: &EscrowLedger, user: &Address) -> (room: bool)
    ensures
        room == has_room(bookings_of(ledger@.user_bookings, user@)),
{
    list_has_room(&ledger.user_bookings, user)
}

/// Whether the list of the bookings that `expert` serves can take one more
/// id.
pub fn expert_list_has_room(ledger: &EscrowLedger, expert: &Address) -> (room: bool)
    ensures
        room == has_room(bookings_of(ledger@.expert_bookings, expert@)),
{
    list_has_room(&ledger.expert_bookings, expert)
}

/// Appends `booking_id` to the list of the bookings that `user` funded. A
/// first list is made in `env`.
pub fn add_booking_to_user_list(
    ledger: &mut EscrowLedger,
    env: &Env,
    user: &Address,
    booking_id: u64,
)
    requires
        has_room(bookings_of(old(ledger)@.user_bookings, user@)),
    ensures
        final(ledger)@ == (LedgerView {
            user_bookings: old(ledger)@.user_bookings.insert(
                user@,
                bookings_of(old(ledger)@.user_bookings, user@).push(booking_id),
            ),
            ..old(ledger)@
        }),
{
    append(&mut ledger.user_bookings, env, user, booking_id);
}

/// Appends `booking_id` to the list of the bookings that `expert` serves. A
/// first list is made in `env`.
pub fn add_booking_to_expert_list(
    ledger: &mut EscrowLedger,
    env: &Env,
    expert: &Address,
    booking_id: u64,
)
    requires
        has_room(bookings_of(old(ledger)@.expert_bookings, expert@)),
    ensures
        final(ledger)@ == (LedgerView {
            expert_bookings: old(ledger)@.expert_bookings.insert(
                expert@,
                bookings_of(old(ledger)@.expert_bookings, expert@).push(booking_id),
            ),
            ..old(ledger)@
        }),
{
    append(&mut ledger.expert_bookings, env, expert, booking_id);
}

/// Puts `ids` in the place of the list of the bookings that `user` funded.
pub fn set_user_bookings(ledger: &mut EscrowLedger, user: &Address, ids: soroban_sdk::Vec<u64>)
    ensures
        final(ledger)@ == (LedgerView {
            user_bookings: old(ledger)@.user_bookings.insert(user@, listed(ids)),
            ..old(ledger)@
        }),
{
    ledger.user_bookings.insert(user.clone(), ids);
    assert(final(ledger)@.user_bookings =~= old(ledger)@.user_bookings.insert(user@, listed(ids)));
}

/// Puts `ids` in the place of the list of the bookings that `expert`
/// serves.
pub fn set_expert_bookings(
    ledger: &mut EscrowLedger,
    expert: &Address,
    ids: soroban_sdk::Vec<u64>,
)
    ensures
        final(ledger)@ == (LedgerView {
            expert_bookings: old(ledger)@.expert_bookings.insert(expert@, listed(ids)),
            ..old(ledger)@
        }),
{
    ledger.expert_bookings.insert(expert.clone(), ids);
    assert(final(ledger)@.expert_bookings =~= old(ledger)@.expert_bookings.insert(
        expert@,
        listed(ids),
    ));
}

/// The ids of the bookings that `user` funded, oldest first. An empty list
/// is made in `env` where the ledger has none for `user`.
pub fn get_user_bookings(ledger: &EscrowLedger, env: &Env, user: &Address) -> (ids:
    soroban_sdk::Vec<u64>)
    ensures
        listed(ids) == bookings_of(ledger@.user_bookings, user@),
{
    list_of(&ledger.user_bookings, env, user)
}

/// The ids of the bookings that `expert` serves, oldest first. An empty
/// list is made in `env` where the ledger has none for `expert`.
pub fn get_expert_bookings(ledger: &EscrowLedger, env: &Env, expert: &Address) -> (ids:
    soroban_sdk::Vec<u64>)
    ensures
        listed(ids) == bookings_of(ledger@.expert_bookings, expert@),
{
    list_of(&ledger.expert_bookings, env, expert)
}

// --- Transfers and notifications ---
/// Adds `transfer` to the transfers that the host has to carry out.
pub fn request_transfer(ledger: &mut EscrowLedger, transfer: Transfer)
    ensures
        final(ledger)@ == (LedgerView {
            transfers: old(ledger)@.transfers.push(transfer@),
            ..old(ledger)@
        }),
{
    ledger.transfers.push(transfer);
    assert(final(ledger)@.transfers =~= old(ledger)@.transfers.push(transfer@));
}

/// The transfers requested so far, oldest first.
pub fn get_transfers(ledger: &EscrowLedger) -> (transfers: &Vec<Transfer>)
    ensures
        transfer_views(transfers@) == ledger@.transfers,
{
    &ledger.transfers
}

/// Adds `event` to the log of notifications.
pub fn publish(ledger: &mut EscrowLedger, event: VaultEvent)
    ensures
        final(ledger)@ == (LedgerView {
            events: old(ledger)@.events.push(event),
            ..old(ledger)@
        }),
{
    ledger.events.push(event);
}

/// The notifications published so far, oldest first.
pub fn get_events(ledger: &EscrowLedger) -> (events: &Vec<VaultEvent>)
    ensures
        events@ == ledger@.events,
{
    &ledger.events
}

} // verus!
