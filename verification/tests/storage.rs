use payment_vault::address::Address;
use payment_vault::table::AddressTable;
use payment_vault::vault::events::{session_finalized, session_reclaimed, VaultEvent};
use payment_vault::vault::storage;
use payment_vault::vault::storage::{Booking, BookingStatus, EscrowLedger, Transfer};
use soroban_sdk::Env;

fn party(name: &str) -> Address {
    Address::from_key(name)
}

/// The ids of a list of the host.
fn ids(list: soroban_sdk::Vec<u64>) -> Vec<u64> {
    list.iter().collect()
}

fn booking(id: u64, status: BookingStatus) -> Booking {
    Booking {
        id,
        expert: party("expert"),
        user: party("user"),
        rate: 4,
        total_deposit: 40,
        booked_duration: 10,
        status,
        created_at: 77,
    }
}

#[test]
fn addresses_are_their_keys() {
    let a = Address::from_key("GABC");
    let b = Address::new(String::from("GABC"));
    let c = Address::from_key("GABD");
    assert_eq!(a.key(), "GABC");
    assert!(a.same_as(&b));
    assert!(!a.same_as(&c));
    assert!(!a.same_as(&Address::from_key("")));
    assert!(a.clone().same_as(&a));
    assert_eq!(a, b);
    assert_ne!(a, c);
}

#[test]
fn address_table_keeps_the_last_value() {
    let mut table: AddressTable<Vec<u64>> = AddressTable::new();
    assert_eq!(table.get(&party("a")), None);
    table.insert(party("a"), vec![1]);
    table.insert(party("b"), vec![2]);
    table.insert(party("a"), vec![1, 3]);
    table.insert(party("c"), vec![]);
    table.insert(party("b"), vec![2, 4]);
    assert_eq!(table.get(&party("a")), Some(&vec![1, 3]));
    assert_eq!(table.get(&party("b")), Some(&vec![2, 4]));
    assert_eq!(table.get(&party("c")), Some(&vec![]));
    assert_eq!(table.get(&party("d")), None);
}

#[test]
fn new_ledger_is_empty() {
    let ledger = EscrowLedger::new();
    assert!(!storage::has_admin(&ledger));
    assert_eq!(storage::get_admin(&ledger), None);
    assert_eq!(storage::get_token(&ledger), None);
    assert_eq!(storage::get_oracle(&ledger), None);
    assert_eq!(storage::booking_counter(&ledger), 0);
    assert_eq!(storage::get_booking(&ledger, 0), None);
    assert_eq!(storage::get_booking(&ledger, 1), None);
    assert!(storage::get_transfers(&ledger).is_empty());
    assert!(storage::get_events(&ledger).is_empty());
}

#[test]
fn restored_ledger_has_its_configuration() {
    let ledger = EscrowLedger::restore(Some(party("a")), Some(party("t")), None, 41);
    assert!(storage::has_admin(&ledger));
    assert_eq!(storage::get_admin(&ledger), Some(party("a")));
    assert_eq!(storage::get_token(&ledger), Some(party("t")));
    assert_eq!(storage::get_oracle(&ledger), None);
    assert_eq!(storage::booking_counter(&ledger), 41);
    assert_eq!(storage::get_booking(&ledger, 41), None);
}

#[test]
fn configuration_is_set_field_by_field() {
    let mut ledger = EscrowLedger::new();
    storage::set_token(&mut ledger, &party("token"));
    assert!(!storage::has_admin(&ledger));
    assert_eq!(storage::get_token(&ledger), Some(party("token")));
    assert_eq!(storage::get_oracle(&ledger), None);
    storage::set_oracle(&mut ledger, &party("oracle"));
    storage::set_admin(&mut ledger, &party("admin"));
    assert!(storage::has_admin(&ledger));
    assert_eq!(storage::get_admin(&ledger), Some(party("admin")));
    assert_eq!(storage::get_token(&ledger), Some(party("token")));
    assert_eq!(storage::get_oracle(&ledger), Some(party("oracle")));
}

#[test]
fn next_booking_id_counts_from_one() {
    let mut ledger = EscrowLedger::new();
    assert_eq!(storage::get_next_booking_id(&mut ledger), 1);
    assert_eq!(storage::get_next_booking_id(&mut ledger), 2);
    assert_eq!(storage::get_next_booking_id(&mut ledger), 3);
    assert_eq!(storage::booking_counter(&ledger), 3);

    let mut ledger = EscrowLedger::restore(None, None, None, u64::MAX - 1);
    assert_eq!(storage::get_next_booking_id(&mut ledger), u64::MAX);
    assert_eq!(storage::booking_counter(&ledger), u64::MAX);
}

#[test]
fn saved_booking_is_found_under_its_id() {
    let mut ledger = EscrowLedger::new();
    storage::save_booking(&mut ledger, &booking(5, BookingStatus::Pending));
    storage::save_booking(&mut ledger, &booking(9, BookingStatus::Complete));
    assert_eq!(storage::get_booking(&ledger, 5), Some(booking(5, BookingStatus::Pending)));
    assert_eq!(storage::get_booking(&ledger, 9), Some(booking(9, BookingStatus::Complete)));
    assert_eq!(storage::get_booking(&ledger, 6), None);

    // saving under the same id replaces
    let mut changed = booking(5, BookingStatus::Reclaimed);
    changed.rate = 8;
    storage::save_booking(&mut ledger, &changed);
    assert_eq!(storage::get_booking(&ledger, 5), Some(changed));
    // and moves no counter
    assert_eq!(storage::booking_counter(&ledger), 0);
}

#[test]
fn update_booking_status_changes_only_the_status() {
    let mut ledger = EscrowLedger::new();
    storage::save_booking(&mut ledger, &booking(5, BookingStatus::Pending));
    storage::save_booking(&mut ledger, &booking(6, BookingStatus::Pending));
    storage::update_booking_status(&mut ledger, 5, BookingStatus::Complete);
    assert_eq!(storage::get_booking(&ledger, 5), Some(booking(5, BookingStatus::Complete)));
    assert_eq!(storage::get_booking(&ledger, 6), Some(booking(6, BookingStatus::Pending)));
    storage::update_booking_status(&mut ledger, 5, BookingStatus::Reclaimed);
    assert_eq!(storage::get_booking(&ledger, 5), Some(booking(5, BookingStatus::Reclaimed)));

    // without such a booking nothing happens
    storage::update_booking_status(&mut ledger, 7, BookingStatus::Complete);
    assert_eq!(storage::get_booking(&ledger, 7), None);
}

#[test]
fn booking_lists_are_appended_to() {
    let env = Env::default();
    let mut ledger = EscrowLedger::new();
    let user = party("user");
    let expert = party("expert");
    assert!(storage::get_user_bookings(&ledger, &env, &user).is_empty());
    storage::add_booking_to_user_list(&mut ledger, &env, &user, 3);
    storage::add_booking_to_user_list(&mut ledger, &env, &expert, 4);
    storage::add_booking_to_user_list(&mut ledger, &env, &user, 1);
    storage::add_booking_to_expert_list(&mut ledger, &env, &expert, 3);
    storage::add_booking_to_expert_list(&mut ledger, &env, &expert, 3);
    assert_eq!(ids(storage::get_user_bookings(&ledger, &env, &user)), vec![3, 1]);
    assert_eq!(ids(storage::get_user_bookings(&ledger, &env, &expert)), vec![4]);
    assert_eq!(ids(storage::get_expert_bookings(&ledger, &env, &expert)), vec![3, 3]);
    assert!(storage::get_expert_bookings(&ledger, &env, &user).is_empty());
    assert!(storage::user_list_has_room(&ledger, &user));
    assert!(storage::user_list_has_room(&ledger, &party("nobody")));
    assert!(storage::expert_list_has_room(&ledger, &expert));
}

#[test]
fn a_list_handed_out_is_not_the_ledgers_own() {
    let env = Env::default();
    let mut ledger = EscrowLedger::new();
    let user = party("user");
    storage::add_booking_to_user_list(&mut ledger, &env, &user, 1);
    let mut mine = storage::get_user_bookings(&ledger, &env, &user);
    mine.push_back(99);
    storage::add_booking_to_user_list(&mut ledger, &env, &user, 2);
    assert_eq!(ids(mine), vec![1, 99]);
    assert_eq!(ids(storage::get_user_bookings(&ledger, &env, &user)), vec![1, 2]);
}

#[test]
fn booking_lists_are_put_in_place() {
    let env = Env::default();
    let mut ledger = EscrowLedger::new();
    let user = party("user");
    let mut stored = soroban_sdk::Vec::new(&env);
    stored.push_back(7);
    stored.push_back(9);
    storage::set_user_bookings(&mut ledger, &user, stored.clone());
    storage::set_expert_bookings(&mut ledger, &user, soroban_sdk::Vec::new(&env));
    assert_eq!(ids(storage::get_user_bookings(&ledger, &env, &user)), vec![7, 9]);
    assert!(storage::get_expert_bookings(&ledger, &env, &user).is_empty());

    storage::add_booking_to_user_list(&mut ledger, &env, &user, 11);
    storage::add_booking_to_expert_list(&mut ledger, &env, &user, 11);
    assert_eq!(ids(storage::get_user_bookings(&ledger, &env, &user)), vec![7, 9, 11]);
    assert_eq!(ids(storage::get_expert_bookings(&ledger, &env, &user)), vec![11]);
    // the list that was handed in is a value of its own
    assert_eq!(ids(stored), vec![7, 9]);

    // putting a list in place replaces the one before it
    storage::set_user_bookings(&mut ledger, &user, soroban_sdk::Vec::new(&env));
    assert!(storage::get_user_bookings(&ledger, &env, &user).is_empty());
}

#[test]
fn transfers_and_events_are_logged_in_order() {
    let mut ledger = EscrowLedger::new();
    storage::request_transfer(&mut ledger, Transfer::Deposit { from: party("u"), amount: 5 });
    storage::request_transfer(&mut ledger, Transfer::Payout { to: party("e"), amount: 2 });
    session_finalized(&mut ledger, 1, 60, 600);
    session_reclaimed(&mut ledger, 2, 1000);
    storage::publish(&mut ledger, VaultEvent::SessionReclaimed { booking_id: 3, amount: 1 });
    assert_eq!(
        storage::get_transfers(&ledger),
        &vec![
            Transfer::Deposit { from: party("u"), amount: 5 },
            Transfer::Payout { to: party("e"), amount: 2 },
        ]
    );
    assert_eq!(
        storage::get_events(&ledger),
        &vec![
            VaultEvent::SessionFinalized { booking_id: 1, actual_duration: 60, expert_pay: 600 },
            VaultEvent::SessionReclaimed { booking_id: 2, amount: 1000 },
            VaultEvent::SessionReclaimed { booking_id: 3, amount: 1 },
        ]
    );
}
