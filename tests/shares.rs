use payattn_escrow::{
    payable, platform_share, publisher_share, user_share, EscrowError, RENT_RESERVE,
};

#[test]
fn split_of_ten_thousand() {
    assert_eq!(RENT_RESERVE, 5_000);
    assert_eq!(payable(10_000), Ok(5_000));
    assert_eq!(user_share(10_000), Ok(3_500));
    assert_eq!(publisher_share(10_000), Ok(1_250));
    assert_eq!(platform_share(10_000), Ok(250));
}

#[test]
fn platform_absorbs_rounding() {
    // payable 7: user 4 (4.9), publisher 1 (1.75), platform 2
    assert_eq!(user_share(5_007), Ok(4));
    assert_eq!(publisher_share(5_007), Ok(1));
    assert_eq!(platform_share(5_007), Ok(2));
}

#[test]
fn shares_sum_to_payable_for_many_amounts() {
    let amounts: [u64; 7] = [5_001, 5_002, 5_099, 10_000, 10_007, 123_456_789, 999_999_999_999];
    for a in amounts {
        let u = user_share(a).unwrap();
        let p = publisher_share(a).unwrap();
        let q = platform_share(a).unwrap();
        assert_eq!(u + p + q, a - RENT_RESERVE);
        assert_eq!(u, (a - RENT_RESERVE) * 70 / 100);
        assert_eq!(p, (a - RENT_RESERVE) * 25 / 100);
    }
}

#[test]
fn share_below_reserve_overflows() {
    assert_eq!(payable(4_999), Err(EscrowError::MathOverflow));
    assert_eq!(user_share(4_999), Err(EscrowError::MathOverflow));
    assert_eq!(publisher_share(0), Err(EscrowError::MathOverflow));
    assert_eq!(platform_share(1), Err(EscrowError::MathOverflow));
    assert_eq!(payable(5_000), Ok(0));
    assert_eq!(user_share(5_000), Ok(0));
}

#[test]
fn share_of_huge_amount_overflows() {
    assert_eq!(user_share(u64::MAX), Err(EscrowError::MathOverflow));
    assert_eq!(publisher_share(u64::MAX), Err(EscrowError::MathOverflow));
    assert_eq!(platform_share(u64::MAX), Err(EscrowError::MathOverflow));
    // the publisher's smaller percentage still fits where the user's does not
    let a = RENT_RESERVE + u64::MAX / 50;
    assert_eq!(user_share(a), Err(EscrowError::MathOverflow));
    assert_eq!(publisher_share(a), Ok((u64::MAX / 50) * 25 / 100));
    assert_eq!(platform_share(a), Err(EscrowError::MathOverflow));
}

#[test]
fn error_codes_and_messages() {
    assert_eq!(EscrowError::AlreadySettled.code(), 6000);
    assert_eq!(EscrowError::MathOverflow.code(), 6006);
    assert_eq!(EscrowError::TransferFailed.code(), 6008);
    assert_eq!(
        EscrowError::NotExpired.message(),
        "Escrow has not yet expired and cannot be refunded"
    );
}
