use psp_standard::psp22_contract::Token;
use psp_standard::{AccessControlData, AccountId, OwnableData, PSP22Error, DEFAULT_ADMIN_ROLE};

fn acct(b: u8) -> AccountId {
    AccountId([b; 32])
}

#[test]
fn grant_twice_is_redundant() {
    let mut r = AccessControlData::new();
    assert_eq!(r.grant_role(5, Some(acct(1))), Ok(()));
    assert!(r.has_role(5, Some(acct(1))));
    assert_eq!(r.grant_role(5, Some(acct(1))), Err(PSP22Error::RoleRedundant));
}

#[test]
fn revoke_non_member_is_missing() {
    let mut r = AccessControlData::new();
    assert_eq!(r.revoke_role(5, Some(acct(1))), Err(PSP22Error::MissingRole));
    r.grant_role(5, None).unwrap();
    assert_eq!(r.revoke_role(5, None), Ok(()));
    assert!(!r.has_role(5, None));
    assert!(!r.only_role(5, None));
}

#[test]
fn default_admin_role() {
    let r = AccessControlData::new();
    assert_eq!(r.get_role_admin(42), DEFAULT_ADMIN_ROLE);
    assert_eq!(DEFAULT_ADMIN_ROLE, 0);
}

#[test]
fn ownable_registry_rules() {
    let mut o = OwnableData::new(Some(acct(1)));
    assert_eq!(o.transfer_ownership(None), Err(PSP22Error::NewOwnerIsNotSet));
    assert_eq!(o.owner(), Some(acct(1)));
    assert_eq!(o.transfer_ownership(Some(acct(2))), Ok(()));
    assert_eq!(o.owner(), Some(acct(2)));
    assert_eq!(o.renounce_ownership(), Ok(()));
    assert_eq!(o.owner(), None);
    // the registry itself does not look at the caller
    assert_eq!(o.transfer_ownership(Some(acct(3))), Ok(()));
}

#[test]
fn renounced_owner_cannot_come_back() {
    let mut t = Token::new(acct(1), 100, None, None, 0);
    assert_eq!(t.transfer_ownership(acct(2), Some(acct(2))), Err(PSP22Error::CallerIsNotOwner));
    assert_eq!(t.renounce_ownership(acct(1)), Ok(()));
    assert_eq!(t.owner(), None);
    assert_eq!(t.transfer_ownership(acct(1), Some(acct(1))), Err(PSP22Error::CallerIsNotOwner));
    assert_eq!(t.renounce_ownership(acct(1)), Err(PSP22Error::CallerIsNotOwner));
    assert_eq!(t.set_code(acct(1), [0u8; 32]), Err(PSP22Error::CallerIsNotOwner));
}

#[test]
fn owner_gate_passes_owner() {
    let mut t = Token::new(acct(1), 100, None, None, 0);
    assert_eq!(t.set_code(acct(1), [7u8; 32]), Ok(()));
    assert_eq!(t.transfer_ownership(acct(1), None), Err(PSP22Error::NewOwnerIsNotSet));
    assert_eq!(t.transfer_ownership(acct(1), Some(acct(2))), Ok(()));
    assert_eq!(t.owner(), Some(acct(2)));
}

#[test]
fn role_gate() {
    let mut t = Token::new(acct(1), 100, None, None, 0);
    assert_eq!(t.grant_role(acct(1), 3, Some(acct(2))), Err(PSP22Error::MissingRole));
    assert_eq!(t.init_admin_role(acct(2)), Err(PSP22Error::CallerIsNotOwner));
    assert_eq!(t.init_admin_role(acct(1)), Ok(()));
    assert_eq!(t.init_admin_role(acct(1)), Err(PSP22Error::RoleRedundant));
    assert!(t.has_role(DEFAULT_ADMIN_ROLE, Some(acct(1))));
    assert_eq!(t.get_role_admin(3), DEFAULT_ADMIN_ROLE);
    assert_eq!(t.grant_role(acct(1), 3, Some(acct(2))), Ok(()));
    assert_eq!(t.grant_role(acct(1), 3, Some(acct(2))), Err(PSP22Error::RoleRedundant));
    assert_eq!(t.revoke_role(acct(2), 3, Some(acct(2))), Err(PSP22Error::MissingRole));
    assert_eq!(t.revoke_role(acct(1), 3, Some(acct(2))), Ok(()));
    assert_eq!(t.revoke_role(acct(1), 3, Some(acct(2))), Err(PSP22Error::MissingRole));
}

#[test]
fn renounce_role_only_for_self() {
    let mut t = Token::new(acct(1), 100, None, None, 0);
    t.init_admin_role(acct(1)).unwrap();
    t.grant_role(acct(1), 4, Some(acct(2))).unwrap();
    assert_eq!(t.renounce_role(acct(1), 4, Some(acct(2))), Err(PSP22Error::InvalidCaller));
    assert_eq!(t.renounce_role(acct(2), 4, Some(acct(2))), Ok(()));
    assert_eq!(t.renounce_role(acct(2), 4, Some(acct(2))), Err(PSP22Error::MissingRole));
}

#[test]
fn withdraw_fee_checks() {
    let t = Token::new(acct(1), 100, None, None, 0);
    assert_eq!(t.withdraw_fee(acct(2), 5, 10), Err(PSP22Error::CallerIsNotOwner));
    assert_eq!(t.withdraw_fee(acct(1), 11, 10), Err(PSP22Error::NotEnoughBalance));
    assert_eq!(t.withdraw_fee(acct(1), 10, 10), Ok(()));
}

#[test]
fn mint_and_burn_are_owner_only() {
    let mut t = Token::new(acct(1), 100, None, None, 0);
    assert_eq!(t.mint(acct(2), acct(2), 10), Err(PSP22Error::CallerIsNotOwner));
    assert_eq!(t.data.total_supply(), 0);
    assert!(t.mint(acct(1), acct(2), 10).is_ok());
    assert_eq!(t.data.balance_of(acct(2)), 10);
    assert_eq!(t.mint(acct(1), acct(2), 91), Err(PSP22Error::CapExceeded));
    assert_eq!(t.burn(acct(2), acct(2), 5), Err(PSP22Error::CallerIsNotOwner));
    assert_eq!(t.data.balance_of(acct(2)), 10);
    assert_eq!(t.burn(acct(1), acct(2), 11), Err(PSP22Error::InsufficientBalance));
    assert!(t.burn(acct(1), acct(2), 4).is_ok());
    assert_eq!(t.data.balance_of(acct(2)), 6);
    assert_eq!(t.data.total_supply(), 6);
}
