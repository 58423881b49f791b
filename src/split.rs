//! The split of the payable balance into the three shares.
use vstd::prelude::*;

use crate::error::EscrowError;

verus! {

/// The balance kept in every escrow record and never paid out as a share.
pub const RENT_RESERVE: u64 = 5000;

/// The user's share of the payable balance, in percent.
pub const USER_PERCENTAGE: u64 = 70;

/// The publisher's share of the payable balance, in percent.
pub const PUBLISHER_PERCENTAGE: u64 = 25;

/// The part of a funded amount that is paid out as shares.
pub open spec fn payable_of(amount: u64) -> int {
    amount - RENT_RESERVE
}

/// A share can be computed: the amount covers the reserve and the product
/// of the payable part with the percentage fits in a `u64`.
pub open spec fn share_computable(amount: u64, percentage: u64) -> bool {
    &&& RENT_RESERVE <= amount
    &&& payable_of(amount) * percentage <= u64::MAX
}

/// The given percentage of the payable part, rounded down.
pub open spec fn percent_share_of(amount: u64, percentage: u64) -> int {
    payable_of(amount) * percentage / 100
}

pub open spec fn user_share_of(amount: u64) -> int {
    percent_share_of(amount, USER_PERCENTAGE)
}

pub open spec fn publisher_share_of(amount: u64) -> int {
    percent_share_of(amount, PUBLISHER_PERCENTAGE)
}

/// The platform takes what the user and the publisher leave, so that the
/// three shares make up the payable part exactly.
pub open spec fn platform_share_of(amount: u64) -> int {
    payable_of(amount) - user_share_of(amount) - publisher_share_of(amount)
}

/// The payable part of a funded amount, or `MathOverflow` when the amount
/// does not cover the reserve.
pub fn payable(amount: u64) -> (r: Result<u64, EscrowError>)
    ensures
        match r {
            Ok(v) => RENT_RESERVE <= amount && v == payable_of(amount),
            Err(e) => amount < RENT_RESERVE && e == EscrowError::MathOverflow,
        },
{
    match amount.checked_sub(RENT_RESERVE) {
        Some(v) => Ok(v),
        None => Err(EscrowError::MathOverflow),
    }
}

fn percent_share(amount: u64, percentage: u64) -> (r: Result<u64, EscrowError>)
    ensures
        match r {
            Ok(v) => share_computable(amount, percentage) && v == percent_share_of(
                amount,
                percentage,
            ),
            Err(e) => !share_computable(amount, percentage) && e == EscrowError::MathOverflow,
        },
{
    let base = payable(amount)?;
    match base.checked_mul(percentage) {
        Some(product) => Ok(product / 100),
        None => Err(EscrowError::MathOverflow),
    }
}

/// The user's share of an escrow funded with `amount`.
pub fn user_share(amount: u64) -> (r: Result<u64, EscrowError>)
    ensures
        match r {
            Ok(v) => share_computable(amount, USER_PERCENTAGE) && v == user_share_of(amount),
            Err(e) => !share_computable(amount, USER_PERCENTAGE) && e
                == EscrowError::MathOverflow,
        },
{
    percent_share(amount, USER_PERCENTAGE)
}

/// The publisher's share of an escrow funded with `amount`.
pub fn publisher_share(amount: u64) -> (r: Result<u64, EscrowError>)
    ensures
        match r {
            Ok(v) => share_computable(amount, PUBLISHER_PERCENTAGE) && v == publisher_share_of(
                amount,
            ),
            Err(e) => !share_computable(amount, PUBLISHER_PERCENTAGE) && e
                == EscrowError::MathOverflow,
        },
{
    percent_share(amount, PUBLISHER_PERCENTAGE)
}

/// The platform's share of an escrow funded with `amount`: the remainder
/// of the payable part after the user's and the publisher's shares.
pub fn platform_share(amount: u64) -> (r: Result<u64, EscrowError>)
    ensures
        match r {
            Ok(v) => share_computable(amount, USER_PERCENTAGE) && v == platform_share_of(amount),
            Err(e) => !share_computable(amount, USER_PERCENTAGE) && e
                == EscrowError::MathOverflow,
        },
{
    let base = payable(amount)?;
    let user = user_share(amount)?;
    let publisher = publisher_share(amount)?;
    proof {
        lemma_shares_within_payable(amount);
    }
    Ok(base - user - publisher)
}

/// The user's and the publisher's shares together never exceed the payable
/// part, so the platform's remainder is never negative.
pub proof fn lemma_shares_within_payable(amount: u64)
    requires
        RENT_RESERVE <= amount,
    ensures
        0 <= publisher_share_of(amount) <= user_share_of(amount),
        user_share_of(amount) + publisher_share_of(amount) <= payable_of(amount),
        platform_share_of(amount) >= 0,
{
    let b = payable_of(amount);
    assert(0 <= b * 25 / 100 <= b * 70 / 100) by (nonlinear_arith)
        requires
            b >= 0,
    ;
    assert(b * 70 / 100 + b * 25 / 100 <= b) by (nonlinear_arith)
        requires
            b >= 0,
    ;
}

} // verus!
