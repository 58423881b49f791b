use payattn_escrow::{escrow_address, Address};

#[test]
fn same_offer_same_address() {
    let program = Address::new([7u8; 32]);
    let a = escrow_address("offer-1", &program).unwrap();
    let b = escrow_address("offer-1", &program).unwrap();
    assert_eq!(a.0, b.0);
    assert_eq!(a.1, b.1);
    assert_ne!(a.0, program);
}

#[test]
fn different_offers_different_addresses() {
    let program = Address::new([7u8; 32]);
    let a = escrow_address("offer-1", &program).unwrap();
    let b = escrow_address("offer-2", &program).unwrap();
    assert_ne!(a.0, b.0);
    let other = Address::new([8u8; 32]);
    let c = escrow_address("offer-1", &other).unwrap();
    assert_ne!(a.0, c.0);
}

#[test]
fn seed_longer_than_limit_has_no_address() {
    let program = Address::new([7u8; 32]);
    let long = "x".repeat(33);
    assert!(escrow_address(&long, &program).is_none());
    let longest = "x".repeat(32);
    assert!(escrow_address(&longest, &program).is_some());
}

#[test]
fn address_equality_is_bytewise() {
    let mut bytes = [3u8; 32];
    let a = Address::new(bytes);
    assert!(a.same(&Address::new(bytes)));
    bytes[31] = 4;
    assert!(!a.same(&Address::new(bytes)));
    assert_ne!(a, Address::new(bytes));
}
