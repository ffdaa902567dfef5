use payment_vault::address::Address;
use payment_vault::registry::contract::{
    ban_expert, get_expert_status, initialize_registry, verify_expert,
};
use payment_vault::registry::error::RegistryError;
use payment_vault::registry::events::{emit_status_change, STATUS_CHANGE_TOPIC};
use payment_vault::registry::storage;
use payment_vault::registry::storage::RegistryLedger;
use payment_vault::registry::types::{ExpertRecord, ExpertStatus};
use payment_vault::registry::IdentityRegistryContract;

fn party(name: &str) -> Address {
    Address::from_key(name)
}

#[test]
fn test_initialization() {
    let mut registry = RegistryLedger::new();

    // 1. An admin address
    let admin = party("admin");

    // 2. Call init (Should succeed)
    let res = IdentityRegistryContract::init(&mut registry, admin.clone());
    assert!(res.is_ok());

    // 3. Call init again (Should fail)
    let res_duplicate = IdentityRegistryContract::init(&mut registry, admin.clone());
    assert!(res_duplicate.is_err());
    assert_eq!(res_duplicate, Err(RegistryError::AlreadyInitialized));
    assert_eq!(storage::get_admin(&registry), Some(admin));
}

#[test]
#[should_panic]
fn test_batch_verification_no_admin() {
    let mut registry = RegistryLedger::new();
    let caller = party("admin");

    let experts = vec![party("e1"), party("e2"), party("e3")];

    for expert in experts.iter() {
        verify_expert(&mut registry, &caller, expert, 10).unwrap();
    }
}

#[test]
fn test_batch_verification_check_status() {
    let mut registry = RegistryLedger::new();
    let admin = party("admin");
    IdentityRegistryContract::init(&mut registry, admin.clone()).unwrap();

    let e1 = party("e1");
    let e2 = party("e2");
    let e3 = party("e3");
    let e4 = party("e4");
    let e5 = party("e5");

    let experts = vec![e1.clone(), e2.clone(), e3.clone(), e4.clone(), e5.clone()];

    for expert in experts.iter() {
        verify_expert(&mut registry, &admin, expert, 10).unwrap();
    }

    assert_eq!(storage::get_expert_status(&registry, &e1), ExpertStatus::Verified);
    assert_eq!(storage::get_expert_status(&registry, &e2), ExpertStatus::Verified);
    assert_eq!(storage::get_expert_status(&registry, &e3), ExpertStatus::Verified);
    assert_eq!(storage::get_expert_status(&registry, &e4), ExpertStatus::Verified);
    assert_eq!(storage::get_expert_status(&registry, &e5), ExpertStatus::Verified);
}

#[test]
fn test_add_expert() {
    let mut registry = RegistryLedger::new();

    let admin = party("admin");
    let expert = party("expert");

    IdentityRegistryContract::init(&mut registry, admin.clone()).unwrap();

    let res = verify_expert(&mut registry, &admin, &expert, 7);
    assert!(res.is_ok());

    // the change is made in the administrator's name
    assert_eq!(storage::get_events(&registry)[0].admin, admin);
    assert_eq!(storage::get_events(&registry)[0].expert, expert);
}

#[test]
#[should_panic]
fn test_add_expert_unauthorized() {
    let mut registry = RegistryLedger::new();

    let admin = party("admin");
    let expert = party("expert");

    IdentityRegistryContract::init(&mut registry, admin).unwrap();

    verify_expert(&mut registry, &party("somebody"), &expert, 7).unwrap();
}

#[test]
fn test_expert_status_changed_event() {
    let mut registry = RegistryLedger::new();

    let admin = party("admin");
    let expert = party("expert");

    IdentityRegistryContract::init(&mut registry, admin.clone()).unwrap();
    verify_expert(&mut registry, &admin, &expert, 7).unwrap();

    let events = storage::get_events(&registry);
    let event = events.last().unwrap();

    assert_eq!(event.expert, expert);
    assert_eq!(event.old_status, ExpertStatus::Unverified);
    assert_eq!(event.new_status, ExpertStatus::Verified);
    assert_eq!(STATUS_CHANGE_TOPIC, "status_change");
}

#[test]
fn unknown_expert_is_unverified_since_zero() {
    let registry = RegistryLedger::new();
    let record = storage::get_expert_record(&registry, &party("nobody"));
    assert_eq!(record, ExpertRecord { status: ExpertStatus::Unverified, updated_at: 0 });
    assert_eq!(get_expert_status(&registry, &party("nobody")), ExpertStatus::Unverified);
}

#[test]
fn registry_starts_without_admin() {
    let mut registry = RegistryLedger::new();
    assert!(!storage::has_admin(&registry));
    assert_eq!(storage::get_admin(&registry), None);
    assert_eq!(initialize_registry(&mut registry, &party("admin")), Ok(()));
    assert!(storage::has_admin(&registry));
    assert_eq!(storage::get_admin(&registry), Some(party("admin")));
}

#[test]
fn set_admin_replaces_the_admin() {
    let mut registry = RegistryLedger::new();
    storage::set_admin(&mut registry, &party("first"));
    storage::set_admin(&mut registry, &party("second"));
    assert_eq!(storage::get_admin(&registry), Some(party("second")));
}

#[test]
fn verify_without_admin_is_not_initialized() {
    let mut registry = RegistryLedger::new();
    assert_eq!(
        verify_expert(&mut registry, &party("admin"), &party("expert"), 1),
        Err(RegistryError::NotInitialized)
    );
    assert_eq!(
        ban_expert(&mut registry, &party("admin"), &party("expert"), 1),
        Err(RegistryError::NotInitialized)
    );
    assert!(storage::get_events(&registry).is_empty());
}

#[test]
fn only_the_admin_changes_a_standing() {
    let mut registry = RegistryLedger::new();
    initialize_registry(&mut registry, &party("admin")).unwrap();
    assert_eq!(
        verify_expert(&mut registry, &party("expert"), &party("expert"), 1),
        Err(RegistryError::NotAuthorized)
    );
    assert_eq!(
        ban_expert(&mut registry, &party("mallory"), &party("expert"), 1),
        Err(RegistryError::NotAuthorized)
    );
    assert_eq!(get_expert_status(&registry, &party("expert")), ExpertStatus::Unverified);
    assert!(storage::get_events(&registry).is_empty());
}

#[test]
fn verifying_twice_is_already_verified() {
    let mut registry = RegistryLedger::new();
    let admin = party("admin");
    let expert = party("expert");
    initialize_registry(&mut registry, &admin).unwrap();
    assert_eq!(verify_expert(&mut registry, &admin, &expert, 5), Ok(()));
    assert_eq!(
        verify_expert(&mut registry, &admin, &expert, 9),
        Err(RegistryError::AlreadyVerified)
    );
    // the refused call left the record and the log alone
    assert_eq!(
        storage::get_expert_record(&registry, &expert),
        ExpertRecord { status: ExpertStatus::Verified, updated_at: 5 }
    );
    assert_eq!(storage::get_events(&registry).len(), 1);
}

#[test]
fn banning_twice_is_already_banned() {
    let mut registry = RegistryLedger::new();
    let admin = party("admin");
    let expert = party("expert");
    initialize_registry(&mut registry, &admin).unwrap();
    assert_eq!(ban_expert(&mut registry, &admin, &expert, 5), Ok(()));
    assert_eq!(ban_expert(&mut registry, &admin, &expert, 9), Err(RegistryError::AlreadyBanned));
    assert_eq!(
        storage::get_expert_record(&registry, &expert),
        ExpertRecord { status: ExpertStatus::Banned, updated_at: 5 }
    );
}

#[test]
fn standing_moves_between_verified_and_banned() {
    let mut registry = RegistryLedger::new();
    let admin = party("admin");
    let expert = party("expert");
    let other = party("other");
    initialize_registry(&mut registry, &admin).unwrap();

    verify_expert(&mut registry, &admin, &expert, 10).unwrap();
    ban_expert(&mut registry, &admin, &expert, 20).unwrap();
    verify_expert(&mut registry, &admin, &expert, 30).unwrap();
    ban_expert(&mut registry, &admin, &other, 40).unwrap();

    assert_eq!(
        storage::get_expert_record(&registry, &expert),
        ExpertRecord { status: ExpertStatus::Verified, updated_at: 30 }
    );
    assert_eq!(
        storage::get_expert_record(&registry, &other),
        ExpertRecord { status: ExpertStatus::Banned, updated_at: 40 }
    );

    let events = storage::get_events(&registry);
    assert_eq!(events.len(), 4);
    assert_eq!(events[0].old_status, ExpertStatus::Unverified);
    assert_eq!(events[0].new_status, ExpertStatus::Verified);
    assert_eq!(events[1].old_status, ExpertStatus::Verified);
    assert_eq!(events[1].new_status, ExpertStatus::Banned);
    assert_eq!(events[2].old_status, ExpertStatus::Banned);
    assert_eq!(events[2].new_status, ExpertStatus::Verified);
    assert_eq!(events[3].expert, other);
    assert_eq!(events[3].old_status, ExpertStatus::Unverified);
    assert_eq!(events[3].new_status, ExpertStatus::Banned);
    assert_eq!(events[3].admin, admin);
}

#[test]
fn set_expert_record_overwrites() {
    let mut registry = RegistryLedger::new();
    let expert = party("expert");
    storage::set_expert_record(&mut registry, &expert, ExpertStatus::Verified, 3);
    storage::set_expert_record(&mut registry, &party("other"), ExpertStatus::Banned, 4);
    storage::set_expert_record(&mut registry, &expert, ExpertStatus::Banned, 8);
    assert_eq!(
        storage::get_expert_record(&registry, &expert),
        ExpertRecord { status: ExpertStatus::Banned, updated_at: 8 }
    );
    assert_eq!(
        storage::get_expert_record(&registry, &party("other")),
        ExpertRecord { status: ExpertStatus::Banned, updated_at: 4 }
    );
}

#[test]
fn emit_status_change_appends_to_the_log() {
    let mut registry = RegistryLedger::new();
    emit_status_change(
        &mut registry,
        party("e1"),
        ExpertStatus::Unverified,
        ExpertStatus::Verified,
        party("admin"),
    );
    emit_status_change(
        &mut registry,
        party("e2"),
        ExpertStatus::Verified,
        ExpertStatus::Banned,
        party("admin"),
    );
    let events = storage::get_events(&registry);
    assert_eq!(events.len(), 2);
    assert_eq!(events[0].expert, party("e1"));
    assert_eq!(events[1].expert, party("e2"));
    assert_eq!(events[1].new_status, ExpertStatus::Banned);
}
