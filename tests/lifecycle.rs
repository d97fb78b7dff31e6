use std::str::FromStr;

use anchor_lang::prelude::Pubkey;
use auth_nft_program::{
    add_verifier, canonical_state_address, close_state, initialize, mint_auth_nft, remove_verifier, Account, AddVerifier,
    CloseState, ErrorCode, Identity, Initialize, MintAuthNft, RemoveVerifier, State,
    ADMIN_PUBKEY_STR,
};

fn id(n: u8) -> Identity {
    Identity::new([n; 32])
}

fn program() -> Identity {
    id(77)
}

fn configured_admin() -> Identity {
    Identity::new(Pubkey::from_str(ADMIN_PUBKEY_STR).unwrap().to_bytes())
}

fn canonical_key() -> Identity {
    let program = Pubkey::new_from_array(program().bytes);
    Identity::new(Pubkey::find_program_address(&[b"state"], &program).0.to_bytes())
}

fn vacant(key: Identity) -> Account {
    Account { key, owner: Identity::new([0; 32]), lamports: 0, data: None }
}

fn create(signer: Identity, initial: Identity) -> (Account, Result<(), ErrorCode>) {
    let mut ctx = Initialize { state: vacant(canonical_key()), admin: signer };
    let r = initialize(&program(), &mut ctx, initial);
    (ctx.state, r)
}

#[test]
fn initialize_by_configured_admin() {
    let (acct, r) = create(configured_admin(), id(1));
    assert!(r.is_ok());
    assert_eq!(acct.key, canonical_key());
    assert_eq!(acct.owner, program());
    let state = acct.data.unwrap();
    assert_eq!(state.admin, configured_admin());
    assert_eq!(state.verifiers, vec![id(1)]);
}

#[test]
fn initialize_by_other_signer_fails() {
    let (acct, r) = create(id(5), id(1));
    assert_eq!(r.unwrap_err(), ErrorCode::UnauthorizedAdmin);
    assert!(acct.data.is_none());
    assert_eq!(acct.owner, Identity::new([0; 32]));
}

#[test]
fn initialize_off_canonical_address_fails() {
    let mut ctx = Initialize { state: vacant(program()), admin: configured_admin() };
    let r = initialize(&program(), &mut ctx, id(1));
    assert_eq!(r.unwrap_err(), ErrorCode::ConstraintSeeds);
    assert!(ctx.state.data.is_none());
}

#[test]
fn initialize_twice_fails() {
    let (acct, r) = create(configured_admin(), id(1));
    assert!(r.is_ok());
    let mut ctx = Initialize { state: acct, admin: configured_admin() };
    let r = initialize(&program(), &mut ctx, id(2));
    assert_eq!(r.unwrap_err(), ErrorCode::AccountInUse);
    assert_eq!(ctx.state.data.unwrap().verifiers, vec![id(1)]);
}

#[test]
fn full_scenario() {
    let a = configured_admin();
    let (acct, r) = create(a, id(1));
    assert!(r.is_ok());
    let state = acct.data.unwrap();

    let mut ctx = AddVerifier { state, admin: a };
    assert!(add_verifier(&mut ctx, id(2), 10).is_ok());
    assert_eq!(ctx.state.verifiers, vec![id(1), id(2)]);

    let mut ctx = RemoveVerifier { state: ctx.state, admin: a };
    assert!(remove_verifier(&mut ctx, id(1), 11).is_ok());
    assert_eq!(ctx.state.verifiers, vec![id(2)]);

    let state = ctx.state;
    let ok = MintAuthNft { state: state.clone(), verifier: id(2), owner: id(9) };
    let ev = mint_auth_nft(
        &ok,
        "SKU-1".to_string(),
        "Brand".to_string(),
        "bags".to_string(),
        "https://example.org/1.json".to_string(),
        12,
    )
    .unwrap();
    assert_eq!(ev.verifier, id(2));
    assert_eq!(ev.owner, id(9));
    assert_eq!(ev.product_id, "SKU-1");
    assert_eq!(ev.brand, "Brand");
    assert_eq!(ev.category, "bags");
    assert_eq!(ev.metadata_uri, "https://example.org/1.json");

    let bad = MintAuthNft { state, verifier: id(1), owner: id(9) };
    let r = mint_auth_nft(
        &bad,
        "SKU-1".to_string(),
        "Brand".to_string(),
        "bags".to_string(),
        "https://example.org/1.json".to_string(),
        12,
    );
    assert_eq!(r.unwrap_err(), ErrorCode::UnauthorizedVerifier);
}

#[test]
fn close_then_initialize_starts_fresh() {
    let a = configured_admin();
    let (mut acct, r) = create(a, id(1));
    assert!(r.is_ok());
    let mut ctx = AddVerifier { state: acct.data.take().unwrap(), admin: a };
    assert!(add_verifier(&mut ctx, id(2), 1).is_ok());
    acct.data = Some(ctx.state);
    acct.lamports = 500;

    let receiver = Account { key: a, owner: Identity::new([0; 32]), lamports: 40, data: None };
    let mut close = CloseState { state: acct, admin: receiver };
    assert!(close_state(&program(), &mut close).is_ok());
    assert_eq!(close.state.lamports, 0);
    assert_eq!(close.admin.lamports, 540);
    assert_eq!(close.state.owner, Identity::new([0; 32]));
    assert!(close.state.data.is_none());

    let mut again = Initialize { state: close.state, admin: a };
    assert!(initialize(&program(), &mut again, id(3)).is_ok());
    let state = again.state.data.unwrap();
    assert_eq!(state.admin, a);
    assert_eq!(state.verifiers, vec![id(3)]);
}

#[test]
fn close_off_canonical_address_fails() {
    let acct = Account { key: id(8), owner: program(), lamports: 5, data: None };
    let receiver = Account { key: id(9), owner: id(0), lamports: 1, data: None };
    let mut close = CloseState { state: acct, admin: receiver };
    assert_eq!(close_state(&program(), &mut close).unwrap_err(), ErrorCode::UnauthorizedAdmin);
    assert_eq!(close.state.lamports, 5);
    assert_eq!(close.admin.lamports, 1);
}

#[test]
fn close_foreign_owned_account_fails() {
    let acct = Account { key: canonical_key(), owner: id(3), lamports: 5, data: None };
    let receiver = Account { key: id(9), owner: id(0), lamports: 1, data: None };
    let mut close = CloseState { state: acct, admin: receiver };
    assert_eq!(close_state(&program(), &mut close).unwrap_err(), ErrorCode::UnauthorizedAdmin);
    assert_eq!(close.state.owner, id(3));
}

#[test]
fn close_balance_overflow_fails() {
    let acct = Account { key: canonical_key(), owner: program(), lamports: 2, data: None };
    let receiver = Account { key: id(9), owner: id(0), lamports: u64::MAX, data: None };
    let mut close = CloseState { state: acct, admin: receiver };
    assert_eq!(close_state(&program(), &mut close).unwrap_err(), ErrorCode::InvalidAdminKey);
    assert_eq!(close.state.lamports, 2);
    assert_eq!(close.admin.lamports, u64::MAX);
}

#[test]
fn close_by_any_signer_is_allowed() {
    let state = State { admin: id(1), verifiers: vec![] };
    let acct = Account { key: canonical_key(), owner: program(), lamports: 3, data: Some(state) };
    let receiver = Account { key: id(42), owner: id(0), lamports: 0, data: None };
    let mut close = CloseState { state: acct, admin: receiver };
    assert!(close_state(&program(), &mut close).is_ok());
    assert_eq!(close.admin.lamports, 3);
}

#[test]
fn canonical_address_matches_sdk_derivation() {
    assert_eq!(canonical_state_address(&program()), Some(canonical_key()));
    assert_ne!(canonical_key(), program());
    assert_ne!(canonical_state_address(&id(78)), Some(canonical_key()));
}
