use std::collections::HashSet;

use anchor_lang::solana_program::pubkey::Pubkey;
use gpl_core::errors::GumError;
use gpl_core::events::{ProfileCreated, ProfileDeleted};
use gpl_core::profile::{
    create_profile_handler, delete_profile_handler, CreateProfile, DeleteProfile,
};
use gpl_core::state::{Namespace, Profile, User};
use gpl_core::store::Ledger;

fn derive_user(random_hash: [u8; 32]) -> ([u8; 32], u8) {
    let tag = gpl_core::addr::user_tag();
    let components = vec![random_hash.to_vec()];
    gpl_core::addr::derive(&tag, &components).expect("user derivation should succeed")
}

fn derive_profile(namespace: Namespace, user_address: [u8; 32]) -> ([u8; 32], u8) {
    let tag = gpl_core::addr::profile_tag();
    let components = vec![namespace.seed_bytes(), user_address.to_vec()];
    gpl_core::addr::derive(&tag, &components).expect("profile derivation should succeed")
}

fn make_user(authority: [u8; 32], random_hash: [u8; 32]) -> (User, [u8; 32]) {
    let (address, bump) = derive_user(random_hash);
    (User { authority, random_hash, bump }, address)
}

fn create_accounts(user: &User, user_address: [u8; 32]) -> CreateProfile {
    CreateProfile { user_address, user: *user, authority: user.authority }
}

fn delete_accounts(profile_address: [u8; 32], user: &User, user_address: [u8; 32]) -> DeleteProfile {
    DeleteProfile { profile_address, user_address, user: *user, authority: user.authority }
}

#[test]
fn derive_is_deterministic() {
    let tag = gpl_core::addr::profile_tag();
    let components = vec![Namespace::Personal.seed_bytes(), [9u8; 32].to_vec()];
    let first = gpl_core::addr::derive(&tag, &components).unwrap();
    let second = gpl_core::addr::derive(&tag, &components).unwrap();
    assert_eq!(first.0, second.0);
    assert_eq!(first.1, second.1);
}

#[test]
fn derive_matches_the_runtime_scheme() {
    let user_address = [5u8; 32];
    let (address, bump) = derive_profile(Namespace::Personal, user_address);
    let program = Pubkey::new_from_array(gpl_core::addr::program_id());
    let (expected, expected_bump) = Pubkey::try_find_program_address(
        &[b"profile", b"personal", user_address.as_ref()],
        &program,
    )
    .unwrap();
    assert_eq!(address, expected.to_bytes());
    assert_eq!(bump, expected_bump);
    assert_ne!(address, user_address);
}

#[test]
fn derived_addresses_do_not_collide_across_pairs() {
    let mut seen: HashSet<[u8; 32]> = HashSet::new();
    for i in 0..40u8 {
        let mut random_hash = [0u8; 32];
        random_hash[0] = i;
        random_hash[1] = 0xA5;
        let (user_address, _) = derive_user(random_hash);
        assert!(seen.insert(user_address), "user address collision at {i}");
        for namespace in [Namespace::Personal, Namespace::Organization] {
            let (profile_address, _) = derive_profile(namespace, user_address);
            assert!(seen.insert(profile_address), "profile address collision at {i}");
        }
    }
    assert_eq!(seen.len(), 40 * 3);
}

#[test]
fn create_writes_the_record_and_reports_the_event() {
    let (user, user_address) = make_user([1u8; 32], [2u8; 32]);
    let (expected_address, expected_bump) = derive_profile(Namespace::Personal, user_address);
    let mut store = Ledger::new();
    let ev: ProfileCreated =
        create_profile_handler(&mut store, &create_accounts(&user, user_address), Namespace::Personal, 77)
            .expect("create should succeed");
    assert_eq!(ev.profile, expected_address);
    assert_eq!(ev.bump, expected_bump);
    assert_eq!(ev.namespace, Namespace::Personal);
    assert_eq!(ev.user, user_address);
    assert_eq!(ev.timestamp, 77);
    let record: Profile = store.get(&expected_address).expect("record should be populated");
    assert_eq!(record.namespace, Namespace::Personal);
    assert_eq!(record.bump, expected_bump);
    assert_eq!(record.user, user_address);
}

#[test]
fn duplicate_create_fails_and_keeps_the_original() {
    let (user, user_address) = make_user([1u8; 32], [2u8; 32]);
    let (expected_address, expected_bump) = derive_profile(Namespace::Personal, user_address);
    let mut store = Ledger::new();
    create_profile_handler(&mut store, &create_accounts(&user, user_address), Namespace::Personal, 1)
        .expect("first create should succeed");
    let second =
        create_profile_handler(&mut store, &create_accounts(&user, user_address), Namespace::Personal, 2);
    assert_eq!(second.unwrap_err(), GumError::AddressAlreadyInUse);
    let record = store.get(&expected_address).expect("original record should remain");
    assert_eq!(record.namespace, Namespace::Personal);
    assert_eq!(record.bump, expected_bump);
    assert_eq!(record.user, user_address);
}

#[test]
fn distinct_namespaces_coexist_for_one_user() {
    let (user, user_address) = make_user([1u8; 32], [2u8; 32]);
    let mut store = Ledger::new();
    let first =
        create_profile_handler(&mut store, &create_accounts(&user, user_address), Namespace::Personal, 1)
            .expect("personal create should succeed");
    let second = create_profile_handler(
        &mut store,
        &create_accounts(&user, user_address),
        Namespace::Organization,
        2,
    )
    .expect("organization create should succeed");
    assert_ne!(first.profile, second.profile);
    assert!(store.contains(&first.profile));
    assert!(store.contains(&second.profile));
}

#[test]
fn unauthorized_create_leaves_no_record() {
    let (user, user_address) = make_user([1u8; 32], [2u8; 32]);
    let (expected_address, _) = derive_profile(Namespace::Personal, user_address);
    let mut store = Ledger::new();
    let mut accounts = create_accounts(&user, user_address);
    accounts.authority = [9u8; 32];
    let r = create_profile_handler(&mut store, &accounts, Namespace::Personal, 1);
    assert_eq!(r.unwrap_err(), GumError::Unauthorized);
    assert!(!store.contains(&expected_address));
}

#[test]
fn unauthorized_delete_keeps_the_record() {
    let (user, user_address) = make_user([1u8; 32], [2u8; 32]);
    let mut store = Ledger::new();
    let ev =
        create_profile_handler(&mut store, &create_accounts(&user, user_address), Namespace::Personal, 1)
            .expect("create should succeed");
    let mut accounts = delete_accounts(ev.profile, &user, user_address);
    accounts.authority = [9u8; 32];
    let r = delete_profile_handler(&mut store, &accounts, 2);
    assert_eq!(r.unwrap_err(), GumError::Unauthorized);
    assert!(store.contains(&ev.profile));
}

#[test]
fn delete_reclaims_the_record_and_reports_the_event() {
    let (user, user_address) = make_user([1u8; 32], [2u8; 32]);
    let mut store = Ledger::new();
    let created =
        create_profile_handler(&mut store, &create_accounts(&user, user_address), Namespace::Personal, 1)
            .expect("create should succeed");
    let ev: ProfileDeleted = delete_profile_handler(
        &mut store,
        &delete_accounts(created.profile, &user, user_address),
        9,
    )
    .expect("delete should succeed");
    assert_eq!(ev.profile, created.profile);
    assert_eq!(ev.namespace, Namespace::Personal);
    assert_eq!(ev.user, user_address);
    assert_eq!(ev.timestamp, 9);
    assert!(!store.contains(&created.profile));
}

#[test]
fn recreate_after_delete_yields_the_identical_address() {
    let (user, user_address) = make_user([1u8; 32], [2u8; 32]);
    let mut store = Ledger::new();
    let first =
        create_profile_handler(&mut store, &create_accounts(&user, user_address), Namespace::Personal, 1)
            .expect("first create should succeed");
    delete_profile_handler(&mut store, &delete_accounts(first.profile, &user, user_address), 2)
        .expect("delete should succeed");
    let second =
        create_profile_handler(&mut store, &create_accounts(&user, user_address), Namespace::Personal, 3)
            .expect("recreate should succeed");
    assert_eq!(second.profile, first.profile);
    assert_eq!(second.bump, first.bump);
    assert!(store.contains(&second.profile));
}

#[test]
fn deleting_with_the_wrong_user_is_rejected() {
    let authority = [1u8; 32];
    let (user_a, address_a) = make_user(authority, [2u8; 32]);
    let (user_b, address_b) = make_user(authority, [3u8; 32]);
    let mut store = Ledger::new();
    let created =
        create_profile_handler(&mut store, &create_accounts(&user_a, address_a), Namespace::Personal, 1)
            .expect("create should succeed");
    let r = delete_profile_handler(
        &mut store,
        &delete_accounts(created.profile, &user_b, address_b),
        2,
    );
    assert_eq!(r.unwrap_err(), GumError::ProfileUserMismatch);
    assert!(store.contains(&created.profile));
}

#[test]
fn a_user_reference_off_its_derived_address_is_rejected() {
    let (user, user_address) = make_user([1u8; 32], [2u8; 32]);
    let mut store = Ledger::new();
    let mut wrong_bump = create_accounts(&user, user_address);
    wrong_bump.user.bump = wrong_bump.user.bump.wrapping_add(1);
    let r = create_profile_handler(&mut store, &wrong_bump, Namespace::Personal, 1);
    assert_eq!(r.unwrap_err(), GumError::InvalidUserAddress);

    let mut wrong_address = create_accounts(&user, user_address);
    wrong_address.user_address = [7u8; 32];
    let r = create_profile_handler(&mut store, &wrong_address, Namespace::Personal, 1);
    assert_eq!(r.unwrap_err(), GumError::InvalidUserAddress);
}

#[test]
fn deleting_an_absent_profile_is_rejected() {
    let (user, user_address) = make_user([1u8; 32], [2u8; 32]);
    let (profile_address, _) = derive_profile(Namespace::Personal, user_address);
    let mut store = Ledger::new();
    let r = delete_profile_handler(
        &mut store,
        &delete_accounts(profile_address, &user, user_address),
        1,
    );
    assert_eq!(r.unwrap_err(), GumError::InvalidProfileAddress);
}

#[test]
fn namespace_bytes_parse_back_to_the_enumeration() {
    assert_eq!(
        Namespace::parse(&b"personal".to_vec()).unwrap(),
        Namespace::Personal
    );
    assert_eq!(
        Namespace::parse(&b"organization".to_vec()).unwrap(),
        Namespace::Organization
    );
    assert_eq!(
        Namespace::parse(&b"gaming".to_vec()).unwrap_err(),
        GumError::InvalidNamespace
    );
    assert_eq!(
        Namespace::parse(&Vec::new()).unwrap_err(),
        GumError::InvalidNamespace
    );
}

#[test]
fn an_oversized_seed_exhausts_the_derivation() {
    let tag = gpl_core::addr::user_tag();
    let components = vec![vec![0u8; 40]];
    let r = gpl_core::addr::derive(&tag, &components);
    assert_eq!(r.unwrap_err(), GumError::DerivationExhausted);
}

#[test]
fn namespace_seed_bytes_are_the_ascii_names() {
    assert_eq!(Namespace::Personal.seed_bytes(), b"personal".to_vec());
    assert_eq!(Namespace::Organization.seed_bytes(), b"organization".to_vec());
}

#[test]
fn the_authorization_gate_checks_the_chain() {
    let (user, user_address) = make_user([1u8; 32], [2u8; 32]);
    assert!(gpl_core::profile::authorize(None, &user_address, &user, &user.authority).is_ok());
    assert_eq!(
        gpl_core::profile::authorize(None, &user_address, &user, &[9u8; 32]).unwrap_err(),
        GumError::Unauthorized
    );
    assert_eq!(
        gpl_core::profile::authorize(Some([8u8; 32]), &user_address, &user, &user.authority)
            .unwrap_err(),
        GumError::ProfileUserMismatch
    );
    assert!(
        gpl_core::profile::authorize(Some(user_address), &user_address, &user, &user.authority)
            .is_ok()
    );
    let mut wrong = user;
    wrong.bump = wrong.bump.wrapping_add(1);
    assert_eq!(
        gpl_core::profile::authorize(None, &user_address, &wrong, &user.authority).unwrap_err(),
        GumError::InvalidUserAddress
    );
}
