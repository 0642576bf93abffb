//! Tests for the guard system (admin, caller, ownership, and composition).
//!
//! Each test validates both success paths and failure modes. The contract's
//! stored state is held here as plain values: the administrator slot of the
//! instance storage and the owner records of the persistent storage.

use std::collections::HashMap;

use clips_nft::{Address, Error, TokenId};

/// A distinct account address for each `n`, in strkey form.
fn account(n: u8) -> Address {
    let mut strkey = b"GA".to_vec();
    for i in 0..52u8 {
        strkey.push(b'A' + (i % 26));
    }
    strkey.push(b'A' + n / 26);
    strkey.push(b'A' + n % 26);
    Address::from_strkey(strkey)
}

fn stored_owner(owners: &HashMap<TokenId, Address>, token_id: TokenId) -> Option<Address> {
    owners.get(&token_id).cloned()
}

// ─── Admin Guard Tests ────────────────────────────────────────────────────────

#[test]
fn test_admin_guard_require_admin_success() {
    let admin = account(1);

    // Initialize admin in storage
    let stored_admin = Some(admin.clone());

    // Admin should pass authorization
    let result = clips_nft::admin_guard::require_admin(&stored_admin, &admin);
    assert!(result.is_ok());
}

#[test]
fn test_admin_guard_require_admin_fails_not_initialized() {
    let caller = account(2);

    // No admin configured
    let stored_admin: Option<Address> = None;
    let result = clips_nft::admin_guard::require_admin(&stored_admin, &caller);
    assert_eq!(result, Err(Error::NotInitialized));
}

#[test]
fn test_admin_guard_require_admin_fails_unauthorized() {
    let admin = account(3);
    let not_admin = account(4);

    // Initialize admin
    let stored_admin = Some(admin.clone());

    // Non-admin should be rejected before require_auth check
    let result = clips_nft::admin_guard::require_admin(&stored_admin, &not_admin);
    assert_eq!(result, Err(Error::UnauthorizedAdmin));
}

#[test]
fn test_admin_guard_get_admin_success() {
    let admin = account(5);

    let stored_admin = Some(admin.clone());

    let retrieved = clips_nft::admin_guard::get_admin(stored_admin).unwrap();
    assert_eq!(retrieved, admin);
}

#[test]
fn test_admin_guard_get_admin_fails_not_initialized() {
    let result = clips_nft::admin_guard::get_admin(None);
    assert_eq!(result, Err(Error::NotInitialized));
}

#[test]
fn test_admin_guard_is_admin_true() {
    let admin = account(6);

    let stored_admin = Some(admin.clone());

    let result = clips_nft::admin_guard::is_admin(&stored_admin, &admin).unwrap();
    assert!(result);
}

#[test]
fn test_admin_guard_is_admin_false() {
    let admin = account(7);
    let not_admin = account(8);

    let stored_admin = Some(admin.clone());

    let result = clips_nft::admin_guard::is_admin(&stored_admin, &not_admin).unwrap();
    assert!(!result);
}

// ─── Caller Guard Tests ───────────────────────────────────────────────────────

#[test]
fn test_caller_guard_require_caller_validates() {
    let caller = account(9);

    // Should validate the caller successfully
    let result = clips_nft::caller_guard::require_caller(&caller);
    assert!(result.is_ok());
}

#[test]
fn test_caller_guard_is_valid_caller_always_true() {
    let address = account(10);

    // In Soroban, all addresses are valid
    assert!(clips_nft::caller_guard::is_valid_caller(&address));
}

#[test]
fn test_caller_guard_multiple_addresses_valid() {
    let addr1 = account(11);
    let addr2 = account(12);
    let addr3 = account(13);

    assert!(clips_nft::caller_guard::is_valid_caller(&addr1));
    assert!(clips_nft::caller_guard::is_valid_caller(&addr2));
    assert!(clips_nft::caller_guard::is_valid_caller(&addr3));

    // All should be distinct
    assert_ne!(addr1, addr2);
    assert_ne!(addr2, addr3);
    assert_ne!(addr1, addr3);
}

// ─── Ownership Guard Tests ────────────────────────────────────────────────────

#[test]
fn test_ownership_guard_require_token_owner_success() {
    let mut owners = HashMap::new();
    let owner = account(14);
    let token_id: TokenId = 1;

    // Set token owner
    owners.insert(token_id, owner.clone());

    // Owner should pass
    let result =
        clips_nft::ownership_guard::require_token_owner(&stored_owner(&owners, token_id), &owner);
    assert!(result.is_ok());
}

#[test]
fn test_ownership_guard_require_token_owner_fails_token_not_found() {
    let owners: HashMap<TokenId, Address> = HashMap::new();
    let caller = account(15);
    let token_id: TokenId = 999;

    // Token doesn't exist
    let result =
        clips_nft::ownership_guard::require_token_owner(&stored_owner(&owners, token_id), &caller);
    assert_eq!(result, Err(Error::TokenNotFound));
}

#[test]
fn test_ownership_guard_require_token_owner_fails_not_owner() {
    let mut owners = HashMap::new();
    let owner = account(16);
    let not_owner = account(17);
    let token_id: TokenId = 1;

    owners.insert(token_id, owner.clone());

    // Non-owner should fail
    let result = clips_nft::ownership_guard::require_token_owner(
        &stored_owner(&owners, token_id),
        &not_owner,
    );
    assert_eq!(result, Err(Error::NotTokenOwner));
}

#[test]
fn test_ownership_guard_get_token_owner_success() {
    let mut owners = HashMap::new();
    let owner = account(18);
    let token_id: TokenId = 1;

    owners.insert(token_id, owner.clone());

    let retrieved =
        clips_nft::ownership_guard::get_token_owner(stored_owner(&owners, token_id)).unwrap();
    assert_eq!(retrieved, owner);
}

#[test]
fn test_ownership_guard_get_token_owner_fails() {
    let owners: HashMap<TokenId, Address> = HashMap::new();
    let token_id: TokenId = 999;

    let result = clips_nft::ownership_guard::get_token_owner(stored_owner(&owners, token_id));
    assert_eq!(result, Err(Error::TokenNotFound));
}

#[test]
fn test_ownership_guard_is_token_owner_true() {
    let mut owners = HashMap::new();
    let owner = account(19);
    let token_id: TokenId = 1;

    owners.insert(token_id, owner.clone());

    let result =
        clips_nft::ownership_guard::is_token_owner(&stored_owner(&owners, token_id), &owner)
            .unwrap();
    assert!(result);
}

#[test]
fn test_ownership_guard_is_token_owner_false() {
    let mut owners = HashMap::new();
    let owner = account(20);
    let not_owner = account(21);
    let token_id: TokenId = 1;

    owners.insert(token_id, owner.clone());

    let result =
        clips_nft::ownership_guard::is_token_owner(&stored_owner(&owners, token_id), &not_owner)
            .unwrap();
    assert!(!result);
}

#[test]
fn test_ownership_guard_is_token_owner_fails_token_not_found() {
    let owners: HashMap<TokenId, Address> = HashMap::new();
    let address = account(22);
    let token_id: TokenId = 999;

    let result =
        clips_nft::ownership_guard::is_token_owner(&stored_owner(&owners, token_id), &address);
    assert_eq!(result, Err(Error::TokenNotFound));
}

#[test]
fn test_ownership_guard_multiple_tokens() {
    let mut owners = HashMap::new();
    let owner1 = account(23);
    let owner2 = account(24);
    let token1: TokenId = 1;
    let token2: TokenId = 2;

    owners.insert(token1, owner1.clone());
    owners.insert(token2, owner2.clone());

    // Verify each owner only owns their token
    assert_eq!(
        clips_nft::ownership_guard::is_token_owner(&stored_owner(&owners, token1), &owner1)
            .unwrap(),
        true
    );
    assert_eq!(
        clips_nft::ownership_guard::is_token_owner(&stored_owner(&owners, token2), &owner1)
            .unwrap(),
        false
    );
    assert_eq!(
        clips_nft::ownership_guard::is_token_owner(&stored_owner(&owners, token1), &owner2)
            .unwrap(),
        false
    );
    assert_eq!(
        clips_nft::ownership_guard::is_token_owner(&stored_owner(&owners, token2), &owner2)
            .unwrap(),
        true
    );
}

// ─── Composed Guard Tests ─────────────────────────────────────────────────────

#[test]
fn test_composed_guard_caller_and_admin_success() {
    let admin = account(25);

    let stored_admin = Some(admin.clone());

    // Both guards should pass
    let result = clips_nft::composed_guard::require_caller_and_admin(&stored_admin, &admin);
    assert!(result.is_ok());
}

#[test]
fn test_composed_guard_caller_and_admin_fails_not_initialized() {
    let caller = account(26);

    // First admin check should fail with NotInitialized
    let stored_admin: Option<Address> = None;
    let result = clips_nft::composed_guard::require_caller_and_admin(&stored_admin, &caller);
    assert_eq!(result, Err(Error::NotInitialized));
}

#[test]
fn test_composed_guard_caller_and_admin_fails_not_admin() {
    let admin = account(27);
    let not_admin = account(28);

    let stored_admin = Some(admin.clone());

    // Should fail on admin check
    let result = clips_nft::composed_guard::require_caller_and_admin(&stored_admin, &not_admin);
    assert_eq!(result, Err(Error::UnauthorizedAdmin));
}

#[test]
fn test_composed_guard_execute_guards_all_pass() {
    let pass: fn() -> Result<(), Error> = || Ok(());
    let guards: &[fn() -> Result<(), Error>] = &[pass, pass, pass];

    let result = clips_nft::composed_guard::execute_guards(guards);
    assert!(result.is_ok());
}

#[test]
fn test_composed_guard_execute_guards_fails_on_first_failure() {
    let pass: fn() -> Result<(), Error> = || Ok(());
    let fail: fn() -> Result<(), Error> = || Err(Error::Unauthorized);

    // Fail on second guard
    let guards: &[fn() -> Result<(), Error>] = &[pass, fail, pass];

    let result = clips_nft::composed_guard::execute_guards(guards);
    assert_eq!(result, Err(Error::Unauthorized));
}

#[test]
fn test_composed_guard_execute_guards_empty() {
    let guards: &[fn() -> Result<(), Error>] = &[];
    let result = clips_nft::composed_guard::execute_guards(guards);
    assert!(result.is_ok());
}

#[test]
fn test_composed_guard_execute_guards_single() {
    let pass: fn() -> Result<(), Error> = || Ok(());
    let guards: &[fn() -> Result<(), Error>] = &[pass];

    let result = clips_nft::composed_guard::execute_guards(guards);
    assert!(result.is_ok());
}

// ─── Integration Tests (Multiple Guards Together) ───────────────────────────────

#[test]
fn test_integration_admin_and_owner_both_required() {
    let admin = account(29);
    let token_owner = account(30);
    let token_id: TokenId = 1;

    // Setup admin and token owner
    let stored_admin = Some(admin.clone());
    let mut owners = HashMap::new();
    owners.insert(token_id, token_owner.clone());

    // Admin should pass admin check
    assert!(clips_nft::admin_guard::require_admin(&stored_admin, &admin).is_ok());

    // Token owner should pass ownership check
    assert!(clips_nft::ownership_guard::require_token_owner(
        &stored_owner(&owners, token_id),
        &token_owner
    )
    .is_ok());

    // Neither should pass the other's check
    assert_eq!(
        clips_nft::admin_guard::require_admin(&stored_admin, &token_owner),
        Err(Error::UnauthorizedAdmin)
    );
    assert_eq!(
        clips_nft::ownership_guard::require_token_owner(&stored_owner(&owners, token_id), &admin),
        Err(Error::NotTokenOwner)
    );
}

#[test]
fn test_integration_deterministic_guard_order() {
    let admin = account(31);

    let stored_admin = Some(admin.clone());

    // Calling with not-initialized should fail fast
    let caller = account(32);
    let result = clips_nft::composed_guard::require_caller_and_admin(&stored_admin, &caller);
    assert_eq!(result, Err(Error::UnauthorizedAdmin));
}

#[test]
fn test_integration_guard_reusability() {
    let admin = account(33);
    let token_id1: TokenId = 1;
    let token_id2: TokenId = 2;

    let stored_admin = Some(admin.clone());
    let mut owners = HashMap::new();
    owners.insert(token_id1, admin.clone());
    owners.insert(token_id2, admin.clone());

    // Same admin can be validated for multiple operations
    assert!(clips_nft::admin_guard::require_admin(&stored_admin, &admin).is_ok());
    assert!(clips_nft::ownership_guard::require_token_owner(
        &stored_owner(&owners, token_id1),
        &admin
    )
    .is_ok());
    assert!(clips_nft::ownership_guard::require_token_owner(
        &stored_owner(&owners, token_id2),
        &admin
    )
    .is_ok());
}
