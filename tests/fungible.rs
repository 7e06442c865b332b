use psp_standard::psp22_contract::Token;
use psp_standard::{AccountId, PSP22Capped, PSP22Data, PSP22Error, PSP22Event};

fn acct(b: u8) -> AccountId {
    AccountId([b; 32])
}

#[test]
fn cap_exceeded_keeps_supply() {
    let mut d = PSP22Data::new(1000);
    assert!(d.mint(acct(1), 1000).is_ok());
    assert_eq!(d.mint(acct(1), 1), Err(PSP22Error::CapExceeded));
    assert_eq!(d.total_supply(), 1000);
    assert_eq!(d.balance_of(acct(1)), 1000);
}

#[test]
fn mint_reports_transfer_from_nobody() {
    let mut d = PSP22Data::new(50);
    let ev = d.mint(acct(1), 20).unwrap();
    assert_eq!(ev, vec![PSP22Event::Transfer { from: None, to: Some(acct(1)), value: 20 }]);
    assert_eq!(d.cap(), 50);
}

#[test]
fn transfer_insufficient_balance_changes_nothing() {
    let mut d = PSP22Data::new(1000);
    d.mint(acct(1), 10).unwrap();
    assert_eq!(d.transfer(acct(1), acct(2), 11), Err(PSP22Error::InsufficientBalance));
    assert_eq!(d.balance_of(acct(1)), 10);
    assert_eq!(d.balance_of(acct(2)), 0);
    assert_eq!(d.total_supply(), 10);
}

#[test]
fn transfer_moves_balance() {
    let mut d = PSP22Data::new(1000);
    d.mint(acct(1), 10).unwrap();
    let ev = d.transfer(acct(1), acct(2), 4).unwrap();
    assert_eq!(ev, vec![PSP22Event::Transfer { from: Some(acct(1)), to: Some(acct(2)), value: 4 }]);
    assert_eq!(d.balance_of(acct(1)), 6);
    assert_eq!(d.balance_of(acct(2)), 4);
    assert_eq!(d.total_supply(), 10);
}

#[test]
fn self_transfer_keeps_balance_and_reports() {
    let mut d = PSP22Data::new(1000);
    d.mint(acct(1), 10).unwrap();
    let ev = d.transfer(acct(1), acct(1), 10).unwrap();
    assert_eq!(ev.len(), 1);
    assert_eq!(d.balance_of(acct(1)), 10);
}

#[test]
fn approve_overwrites() {
    let mut d = PSP22Data::new(1000);
    let ev = d.approve(acct(1), acct(2), 30).unwrap();
    assert_eq!(ev, vec![PSP22Event::Approval { owner: acct(1), spender: acct(2), amount: 30 }]);
    assert_eq!(d.allowance(acct(1), acct(2)), 30);
    d.approve(acct(1), acct(2), 5).unwrap();
    assert_eq!(d.allowance(acct(1), acct(2)), 5);
    assert_eq!(d.allowance(acct(2), acct(1)), 0);
}

#[test]
fn increase_then_decrease_restores() {
    let mut d = PSP22Data::new(1000);
    d.approve(acct(1), acct(2), 7).unwrap();
    d.increase_allowance(acct(1), acct(2), 5).unwrap();
    assert_eq!(d.allowance(acct(1), acct(2)), 12);
    d.decrease_allowance(acct(1), acct(2), 5).unwrap();
    assert_eq!(d.allowance(acct(1), acct(2)), 7);
}

#[test]
fn decrease_below_zero_fails() {
    let mut d = PSP22Data::new(1000);
    d.approve(acct(1), acct(2), 3).unwrap();
    assert_eq!(d.decrease_allowance(acct(1), acct(2), 4), Err(PSP22Error::InsufficientAllowance));
    assert_eq!(d.allowance(acct(1), acct(2)), 3);
}

#[test]
fn increase_overflow_fails() {
    let mut d = PSP22Data::new(1000);
    d.approve(acct(1), acct(2), u128::MAX).unwrap();
    assert!(matches!(d.increase_allowance(acct(1), acct(2), 1), Err(PSP22Error::Custom(_))));
    assert_eq!(d.allowance(acct(1), acct(2)), u128::MAX);
}

#[test]
fn transfer_from_spends_allowance() {
    let mut d = PSP22Data::new(1000);
    d.mint(acct(1), 100).unwrap();
    d.approve(acct(1), acct(2), 60).unwrap();
    let ev = d.transfer_from(acct(2), acct(1), acct(3), 50).unwrap();
    assert_eq!(
        ev,
        vec![
            PSP22Event::Approval { owner: acct(1), spender: acct(2), amount: 10 },
            PSP22Event::Transfer { from: Some(acct(1)), to: Some(acct(3)), value: 50 },
        ]
    );
    assert_eq!(d.allowance(acct(1), acct(2)), 10);
    assert_eq!(d.balance_of(acct(1)), 50);
    assert_eq!(d.balance_of(acct(3)), 50);
}

#[test]
fn transfer_from_errors() {
    let mut d = PSP22Data::new(1000);
    d.mint(acct(1), 10).unwrap();
    assert_eq!(d.transfer_from(acct(2), acct(1), acct(3), 5), Err(PSP22Error::InsufficientAllowance));
    d.approve(acct(1), acct(2), 50).unwrap();
    assert_eq!(d.transfer_from(acct(2), acct(1), acct(3), 20), Err(PSP22Error::InsufficientBalance));
    assert_eq!(d.allowance(acct(1), acct(2)), 50);
    assert_eq!(d.balance_of(acct(1)), 10);
}

#[test]
fn burn_reduces_supply() {
    let mut d = PSP22Data::new(1000);
    d.mint(acct(1), 10).unwrap();
    assert_eq!(d.burn(acct(1), 11), Err(PSP22Error::InsufficientBalance));
    let ev = d.burn(acct(1), 4).unwrap();
    assert_eq!(ev, vec![PSP22Event::Transfer { from: Some(acct(1)), to: None, value: 4 }]);
    assert_eq!(d.total_supply(), 6);
    assert_eq!(d.balance_of(acct(1)), 6);
}

#[test]
fn sum_of_balances_matches_supply() {
    let mut d = PSP22Data::new(1000);
    d.mint(acct(1), 300).unwrap();
    d.mint(acct(2), 200).unwrap();
    d.transfer(acct(1), acct(3), 120).unwrap();
    d.burn(acct(2), 50).unwrap();
    let sum: u128 = (1..=3).map(|b| d.balance_of(acct(b))).sum();
    assert_eq!(sum, d.total_supply());
    assert_eq!(d.total_supply(), 450);
}

#[test]
fn token_cap_and_metadata() {
    let mut t = Token::new(acct(9), 77, Some(String::from("Coin")), None, 6);
    assert_eq!(t.cap(), 77);
    assert_eq!(t.token_name(), Some(String::from("Coin")));
    assert_eq!(t.token_symbol(), None);
    assert_eq!(t.token_decimals(), 6);
    assert_eq!(t.owner(), Some(acct(9)));
    t.mint(acct(9), acct(1), 10).unwrap();
    t.transfer_ownership(acct(9), Some(acct(2))).unwrap();
    assert_eq!(t.token_name(), Some(String::from("Coin")));
    assert_eq!(t.token_decimals(), 6);
}
