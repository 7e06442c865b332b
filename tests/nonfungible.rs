use psp_standard::metadata::Data;
use psp_standard::psp34_contract::Token;
use psp_standard::{AccountId, Id, PSP34Data, PSP34Error, PSP34Event};

fn acct(b: u8) -> AccountId {
    AccountId([b; 32])
}

#[test]
fn mint_then_owner_and_duplicate() {
    let mut d = PSP34Data::new();
    let ev = d.mint(acct(1), Id::U8(1)).unwrap();
    assert!(matches!(&ev[..], [PSP34Event::Transfer { from: None, to: Some(_), id: Id::U8(1) }]));
    assert_eq!(d.owner_of(&Id::U8(1)), Some(acct(1)));
    assert!(matches!(d.mint(acct(2), Id::U8(1)), Err(PSP34Error::TokenExists)));
    assert_eq!(d.owner_of(&Id::U8(1)), Some(acct(1)));
    assert_eq!(d.total_supply(), 1);
    assert_eq!(d.balance_of(acct(1)), 1);
}

#[test]
fn burn_missing_token() {
    let mut d = PSP34Data::new();
    assert!(matches!(d.burn(acct(1), acct(1), Id::U16(3)), Err(PSP34Error::TokenNotExists)));
}

#[test]
fn burn_removes_token() {
    let mut d = PSP34Data::new();
    d.mint(acct(1), Id::Bytes(vec![1, 2])).unwrap();
    assert!(matches!(d.burn(acct(2), acct(1), Id::Bytes(vec![1, 2])), Err(PSP34Error::NotApproved)));
    let ev = d.burn(acct(1), acct(1), Id::Bytes(vec![1, 2])).unwrap();
    assert_eq!(ev.len(), 1);
    assert_eq!(d.owner_of(&Id::Bytes(vec![1, 2])), None);
    assert_eq!(d.total_supply(), 0);
    assert_eq!(d.balance_of(acct(1)), 0);
}

#[test]
fn burn_of_another_accounts_token_is_refused() {
    let mut d = PSP34Data::new();
    d.mint(acct(1), Id::U8(1)).unwrap();
    d.mint(acct(2), Id::U8(2)).unwrap();
    assert!(matches!(d.burn(acct(2), acct(2), Id::U8(1)), Err(PSP34Error::NotTokenOwner)));
    assert_eq!(d.owner_of(&Id::U8(1)), Some(acct(1)));
    assert_eq!(d.balance_of(acct(1)), 1);
    assert_eq!(d.balance_of(acct(2)), 1);
    assert!(d.transfer(acct(2), acct(3), Id::U8(2), vec![]).is_ok());
    assert!(d.burn(acct(1), acct(1), Id::U8(1)).is_ok());
    assert_eq!(d.balance_of(acct(1)), 0);
    assert_eq!(d.total_supply(), 1);
}

#[test]
fn burn_by_operator_for_all() {
    let mut d = PSP34Data::new();
    d.mint(acct(1), Id::U32(9)).unwrap();
    d.approve(acct(1), acct(2), None, true).unwrap();
    assert!(d.burn(acct(2), acct(1), Id::U32(9)).is_ok());
    assert_eq!(d.owner_of(&Id::U32(9)), None);
}

#[test]
fn self_transfer_is_noop() {
    let mut d = PSP34Data::new();
    d.mint(acct(1), Id::U64(5)).unwrap();
    let ev = d.transfer(acct(1), acct(1), Id::U64(5), vec![]).unwrap();
    assert!(ev.is_empty());
    assert_eq!(d.balance_of(acct(1)), 1);
    assert_eq!(d.owner_of(&Id::U64(5)), Some(acct(1)));
}

#[test]
fn transfer_moves_token() {
    let mut d = PSP34Data::new();
    d.mint(acct(1), Id::U64(5)).unwrap();
    assert!(matches!(d.transfer(acct(1), acct(2), Id::U64(6), vec![]), Err(PSP34Error::TokenNotExists)));
    assert!(matches!(d.transfer(acct(3), acct(2), Id::U64(5), vec![]), Err(PSP34Error::NotApproved)));
    let ev = d.transfer(acct(1), acct(2), Id::U64(5), vec![]).unwrap();
    assert!(matches!(&ev[..], [PSP34Event::Transfer { from: Some(_), to: Some(_), id: Id::U64(5) }]));
    assert_eq!(d.owner_of(&Id::U64(5)), Some(acct(2)));
    assert_eq!(d.balance_of(acct(1)), 0);
    assert_eq!(d.balance_of(acct(2)), 1);
}

#[test]
fn token_approval_cleared_by_transfer() {
    let mut d = PSP34Data::new();
    d.mint(acct(1), Id::U128(7)).unwrap();
    d.approve(acct(1), acct(2), Some(Id::U128(7)), true).unwrap();
    assert!(d.allowance(acct(1), acct(2), Some(&Id::U128(7))));
    assert!(!d.allowance(acct(1), acct(2), None));
    d.transfer(acct(2), acct(3), Id::U128(7), vec![]).unwrap();
    assert_eq!(d.owner_of(&Id::U128(7)), Some(acct(3)));
    assert!(!d.allowance(acct(1), acct(2), Some(&Id::U128(7))));
}

#[test]
fn owner_transfer_clears_every_token_approval() {
    let mut d = PSP34Data::new();
    d.mint(acct(1), Id::U8(7)).unwrap();
    d.mint(acct(1), Id::U8(8)).unwrap();
    d.approve(acct(1), acct(2), Some(Id::U8(7)), true).unwrap();
    d.approve(acct(1), acct(4), Some(Id::U8(7)), true).unwrap();
    d.approve(acct(1), acct(2), Some(Id::U8(8)), true).unwrap();
    d.approve(acct(1), acct(5), None, true).unwrap();
    d.transfer(acct(1), acct(3), Id::U8(7), vec![]).unwrap();
    assert!(!d.allowance(acct(1), acct(2), Some(&Id::U8(7))));
    assert!(!d.allowance(acct(1), acct(4), Some(&Id::U8(7))));
    assert!(d.allowance(acct(1), acct(2), Some(&Id::U8(8))));
    assert!(d.allowance(acct(1), acct(5), None));
    // the token coming back does not bring the old approvals back
    d.transfer(acct(3), acct(1), Id::U8(7), vec![]).unwrap();
    assert!(!d.allowance(acct(1), acct(4), Some(&Id::U8(7))));
}

#[test]
fn burn_checks_approval_before_ownership() {
    let mut d = PSP34Data::new();
    d.mint(acct(1), Id::U8(1)).unwrap();
    assert!(matches!(d.burn(acct(3), acct(2), Id::U8(1)), Err(PSP34Error::NotApproved)));
    d.approve(acct(2), acct(3), None, true).unwrap();
    assert!(matches!(d.burn(acct(3), acct(2), Id::U8(1)), Err(PSP34Error::NotTokenOwner)));
    assert_eq!(d.owner_of(&Id::U8(1)), Some(acct(1)));
}

#[test]
fn approve_errors() {
    let mut d = PSP34Data::new();
    assert!(matches!(d.approve(acct(1), acct(2), Some(Id::U8(1)), true), Err(PSP34Error::TokenNotExists)));
    d.mint(acct(1), Id::U8(1)).unwrap();
    assert!(matches!(d.approve(acct(1), acct(1), Some(Id::U8(1)), true), Err(PSP34Error::SelfApprove)));
    assert!(matches!(d.approve(acct(3), acct(2), Some(Id::U8(1)), true), Err(PSP34Error::NotApproved)));
    d.approve(acct(1), acct(2), None, true).unwrap();
    assert!(matches!(d.approve(acct(1), acct(2), Some(Id::U8(1)), false), Err(PSP34Error::Custom(_))));
    // an operator for all tokens approves on the owner's behalf
    let ev = d.approve(acct(2), acct(4), Some(Id::U8(1)), true).unwrap();
    assert!(matches!(&ev[..], [PSP34Event::Approval { approved: true, .. }]));
    if let PSP34Event::Approval { owner, .. } = &ev[0] {
        assert_eq!(*owner, acct(1));
    }
    assert!(d.allowance(acct(1), acct(4), Some(&Id::U8(1))));
    d.approve(acct(1), acct(2), None, false).unwrap();
    assert!(!d.allowance(acct(1), acct(2), None));
}

#[test]
fn lock_counts_every_call() {
    let mut d = PSP34Data::new();
    assert!(!d.is_locked_nft(Id::U8(2)));
    d.lock(Id::U8(2)).unwrap();
    d.lock(Id::U8(2)).unwrap();
    assert!(d.is_locked_nft(Id::U8(2)));
    assert_eq!(d.get_locked_token_count(), 2);
    assert_eq!(d.get_last_token_id(), 0);
}

#[test]
fn collection_id_is_account_bytes() {
    let d = PSP34Data::new();
    assert_eq!(d.collection_id(acct(4)), Id::Bytes(vec![4u8; 32]));
}

#[test]
fn id_as_number() {
    let mut bytes = vec![0u8; 16];
    bytes[14] = 1;
    bytes[15] = 2;
    assert_eq!(Id::Bytes(bytes).to_u128(), Some(258));
    assert_eq!(Id::Bytes(vec![1, 2, 3]).to_u128(), None);
    assert_eq!(Id::Bytes(vec![0u8; 17]).to_u128(), None);
    assert_eq!(Id::U16(300).to_u128(), Some(300));
    assert_eq!(Id::U128(u128::MAX).to_u128(), Some(u128::MAX));
    assert_eq!(Id::Bytes(vec![0xff; 16]).to_u128(), Some(u128::MAX));
    assert_eq!(Id::default(), Id::U128(0));
}

#[test]
fn contract_lock_needs_token_owner() {
    let mut t = Token::new(acct(1));
    t.data.mint(acct(2), Id::U8(1)).unwrap();
    assert!(matches!(t.lock(acct(1), Id::U8(1)), Err(PSP34Error::NotTokenOwner)));
    assert!(matches!(t.lock(acct(2), Id::U8(9)), Err(PSP34Error::NotTokenOwner)));
    assert!(t.lock(acct(2), Id::U8(1)).is_ok());
    assert!(t.is_locked_nft(Id::U8(1)));
    assert_eq!(t.get_locked_token_count(), 1);
    assert_eq!(t.owner_of(Id::U8(1)), Some(acct(2)));
}

#[test]
fn contract_ownership() {
    let mut t = Token::new(acct(1));
    assert_eq!(t.get_owner(), acct(1));
    assert!(matches!(t.transfer_ownership(acct(2), Some(acct(2))), Err(PSP34Error::CallerIsNotOwner)));
    assert!(matches!(t.transfer_ownership(acct(1), None), Err(PSP34Error::NewOwnerIsNotSet)));
    assert!(t.transfer_ownership(acct(1), Some(acct(2))).is_ok());
    assert_eq!(t.owner(), Some(acct(2)));
    assert!(t.renounce_ownership(acct(2)).is_ok());
    assert_eq!(t.owner(), None);
    assert!(matches!(t.transfer_ownership(acct(2), Some(acct(2))), Err(PSP34Error::CallerIsNotOwner)));
}

#[test]
fn base_uri_and_token_uri() {
    let mut m = Data::new();
    assert_eq!(m.token_uri(5), "1.json");
    m.set_base_uri(String::from("ipfs://x/")).unwrap();
    assert_eq!(m.token_uri(5), "ipfs://x/1.json");
    assert_eq!(m.get_attribute(Id::U8(0), b"baseURI".to_vec()), Some(b"ipfs://x/".to_vec()));
    let mut t = Token::new(acct(1));
    t.metadata.set_base_uri(String::from("u")).unwrap();
    assert_eq!(t.get_attribute(Id::U8(0), b"baseURI".to_vec()), Some(b"u".to_vec()));
}

#[test]
fn unreadable_base_uri_counts_as_empty() {
    let mut m = Data::new();
    m.set_attribute(Id::U8(0), b"baseURI".to_vec(), vec![0xff, 0xfe]).unwrap();
    assert_eq!(m.token_uri(1), "1.json");
}

#[test]
fn set_attribute_reports() {
    let mut m = Data::new();
    let ev = m.set_attribute(Id::U32(3), b"k".to_vec(), b"v".to_vec()).unwrap();
    assert!(matches!(&ev[..], [PSP34Event::AttributeSet { id: Id::U32(3), .. }]));
    assert_eq!(m.get_attribute(Id::U32(3), b"k".to_vec()), Some(b"v".to_vec()));
    assert_eq!(m.get_attribute(Id::U32(4), b"k".to_vec()), None);
}

#[test]
fn multiple_attributes_register_names_once() {
    let mut m = Data::new();
    assert!(matches!(
        m.set_multiple_attributes(Id::U64(0), vec![(String::from("a"), String::from("1"))]),
        Err(PSP34Error::InvalidInput)
    ));
    assert_eq!(m.get_attribute_count(), 0);
    let batch = vec![
        (String::from("color"), String::from("red")),
        (String::from("size"), String::from("9")),
        (String::from("color"), String::from("blue")),
    ];
    assert!(m.set_multiple_attributes(Id::U64(1), batch).is_ok());
    assert_eq!(m.get_attribute_count(), 2);
    assert_eq!(m.get_attribute_name(1), "color");
    assert_eq!(m.get_attribute_name(2), "size");
    assert_eq!(m.get_attribute_name(3), "");
    let got = m.get_attributes(
        Id::U64(1),
        vec![String::from("color"), String::from("size"), String::from("none")],
    );
    assert_eq!(got, vec![String::from("blue"), String::from("9"), String::new()]);
    assert_eq!(m.get_attributes(Id::U64(2), vec![String::from("color")]), vec![String::new()]);
}
