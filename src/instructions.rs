//! The four escrow operations: creation, the three settlements, and refund.
//! Each is atomic: it either applies in full or changes nothing.
use vstd::prelude::*;

use crate::address::Address;
use crate::error::EscrowError;
use crate::escrow::{
    offer_id_len, transfer, transferable, Escrow, EscrowAccount, Wallet, MAX_OFFER_ID_LEN,
};
use crate::split::{
    lemma_shares_within_payable, platform_share, platform_share_of, publisher_share,
    publisher_share_of, share_computable, user_share, user_share_of, PUBLISHER_PERCENTAGE,
    RENT_RESERVE, USER_PERCENTAGE,
};

verus! {

/// The accounts that the creation of an escrow works on.
#[derive(Clone, Debug)]
pub struct CreateEscrow {
    /// The address derived from the offer identifier.
    pub escrow_key: Address,
    /// The derivation nonce of that address.
    pub bump: u8,
    /// The record that stands at that address already, if any; the new record
    /// after a successful creation.
    pub escrow: Option<EscrowAccount>,
    /// The advertiser, who signs and funds the escrow.
    pub advertiser: Wallet,
    pub user: Address,
    pub platform: Address,
}

/// The accounts that the user's settlement works on.
#[derive(Clone, Debug)]
pub struct SettleUser {
    pub escrow: EscrowAccount,
    pub user: Wallet,
}

/// The accounts that the publisher's settlement works on. The publisher is
/// named at settlement time and is not checked against the record.
#[derive(Clone, Debug)]
pub struct SettlePublisher {
    pub escrow: EscrowAccount,
    pub publisher: Wallet,
}

/// The accounts that the platform's settlement works on.
#[derive(Clone, Debug)]
pub struct SettlePlatform {
    pub escrow: EscrowAccount,
    pub platform: Wallet,
}

/// The accounts that a refund works on; the advertiser signs.
#[derive(Clone, Debug)]
pub struct RefundEscrow {
    pub escrow: EscrowAccount,
    pub advertiser: Wallet,
}

/// The error with which a creation is refused, checked in this order, or
/// `None` when it succeeds.
pub open spec fn create_error(ctx: CreateEscrow, offer_id: Seq<char>, amount: u64) -> Option<
    EscrowError,
> {
    if ctx.escrow is Some {
        Some(EscrowError::DuplicateRecord)
    } else if amount <= RENT_RESERVE {
        Some(EscrowError::InvalidAmount)
    } else if offer_id_len(offer_id) > MAX_OFFER_ID_LEN {
        Some(EscrowError::OfferIdTooLong)
    } else if ctx.advertiser.lamports < amount {
        Some(EscrowError::TransferFailed)
    } else {
        None
    }
}

/// `acc` is the record that a successful creation from `ctx` puts in place:
/// at the derived address, holding exactly `amount`, nothing settled yet.
pub open spec fn is_new_escrow(
    acc: EscrowAccount,
    ctx: CreateEscrow,
    offer_id: Seq<char>,
    amount: u64,
    now: i64,
) -> bool {
    &&& acc.key == ctx.escrow_key
    &&& acc.lamports == amount
    &&& acc.data.offer_id@ == offer_id
    &&& acc.data.advertiser == ctx.advertiser.key
    &&& acc.data.user == ctx.user
    &&& acc.data.platform == ctx.platform
    &&& acc.data.amount == amount
    &&& acc.data.created_at == now
    &&& acc.data.none_settled()
    &&& acc.data.bump == ctx.bump
}

/// Creates the escrow of an offer at ledger time `now`: moves `amount` from
/// the advertiser into a new record at the derived address.
pub fn create_escrow(ctx: &mut CreateEscrow, offer_id: String, amount: u64, now: i64) -> (r:
    Result<(), EscrowError>)
    ensures
        r is Ok <==> create_error(*old(ctx), offer_id@, amount) is None,
        r matches Err(e) ==> create_error(*old(ctx), offer_id@, amount) == Some(e) && *final(ctx)
            == *old(ctx),
        r is Ok ==> {
            &&& final(ctx).escrow matches Some(acc) && is_new_escrow(
                acc,
                *old(ctx),
                offer_id@,
                amount,
                now,
            ) && acc.wf()
            &&& final(ctx).advertiser.key == old(ctx).advertiser.key
            &&& final(ctx).advertiser.lamports == old(ctx).advertiser.lamports - amount
            &&& final(ctx).escrow_key == old(ctx).escrow_key
            &&& final(ctx).bump == old(ctx).bump
            &&& final(ctx).user == old(ctx).user
            &&& final(ctx).platform == old(ctx).platform
        },
{
    if ctx.escrow.is_some() {
        return Err(EscrowError::DuplicateRecord);
    }
    if amount <= RENT_RESERVE {
        return Err(EscrowError::InvalidAmount);
    }
    if offer_id.as_str().as_bytes().len() > MAX_OFFER_ID_LEN {
        return Err(EscrowError::OfferIdTooLong);
    }
    let mut funds = ctx.advertiser.lamports;
    let mut locked: u64 = 0;
    transfer(&mut funds, &mut locked, amount)?;
    ctx.advertiser.lamports = funds;
    let data = Escrow {
        offer_id,
        advertiser: ctx.advertiser.key,
        user: ctx.user,
        platform: ctx.platform,
        amount,
        created_at: now,
        user_settled: false,
        publisher_settled: false,
        platform_settled: false,
        bump: ctx.bump,
    };
    proof {
        lemma_shares_within_payable(amount);
    }
    ctx.escrow = Some(EscrowAccount { key: ctx.escrow_key, lamports: locked, data });
    Ok(())
}

/// The error with which the user's settlement is refused, checked in this
/// order, or `None` when it succeeds.
pub open spec fn settle_user_error(ctx: SettleUser, now: i64) -> Option<EscrowError> {
    let e = ctx.escrow.data;
    if e.user_settled {
        Some(EscrowError::AlreadySettled)
    } else if e.expired_at(now) {
        Some(EscrowError::EscrowExpired)
    } else if ctx.user.key@ != e.user@ {
        Some(EscrowError::Unauthorized)
    } else if !share_computable(e.amount, USER_PERCENTAGE) {
        Some(EscrowError::MathOverflow)
    } else if !transferable(ctx.escrow.lamports, ctx.user.lamports, user_share_of(e.amount)) {
        Some(EscrowError::TransferFailed)
    } else {
        None
    }
}

/// `acc` with `amount` moved out of its balance.
pub open spec fn debited(acc: EscrowAccount, amount: int) -> EscrowAccount {
    EscrowAccount { lamports: (acc.lamports - amount) as u64, ..acc }
}

/// `w` with `amount` added to its balance.
pub open spec fn credited(w: Wallet, amount: int) -> Wallet {
    Wallet { lamports: (w.lamports + amount) as u64, ..w }
}

/// The accounts after a successful settlement of the user's share.
pub open spec fn user_paid(ctx: SettleUser) -> SettleUser {
    let share = user_share_of(ctx.escrow.data.amount);
    let acc = debited(ctx.escrow, share);
    SettleUser {
        escrow: EscrowAccount { data: Escrow { user_settled: true, ..acc.data }, ..acc },
        user: credited(ctx.user, share),
    }
}

/// The accounts after a successful settlement of the publisher's share.
pub open spec fn publisher_paid(ctx: SettlePublisher) -> SettlePublisher {
    let share = publisher_share_of(ctx.escrow.data.amount);
    let acc = debited(ctx.escrow, share);
    SettlePublisher {
        escrow: EscrowAccount { data: Escrow { publisher_settled: true, ..acc.data }, ..acc },
        publisher: credited(ctx.publisher, share),
    }
}

/// The accounts after a successful settlement of the platform's share.
pub open spec fn platform_paid(ctx: SettlePlatform) -> SettlePlatform {
    let share = platform_share_of(ctx.escrow.data.amount);
    let acc = debited(ctx.escrow, share);
    SettlePlatform {
        escrow: EscrowAccount { data: Escrow { platform_settled: true, ..acc.data }, ..acc },
        platform: credited(ctx.platform, share),
    }
}

/// Pays the user's share at ledger time `now` and marks it settled.
pub fn settle_user(ctx: &mut SettleUser, now: i64) -> (r: Result<(), EscrowError>)
    ensures
        r is Ok <==> settle_user_error(*old(ctx), now) is None,
        r matches Err(e) ==> settle_user_error(*old(ctx), now) == Some(e) && *final(ctx) == *old(
            ctx,
        ),
        r is Ok ==> *final(ctx) == user_paid(*old(ctx)),
        old(ctx).escrow.wf() ==> final(ctx).escrow.wf(),
{
    if ctx.escrow.data.user_settled {
        return Err(EscrowError::AlreadySettled);
    }
    if ctx.escrow.data.is_expired(now) {
        return Err(EscrowError::EscrowExpired);
    }
    if !ctx.user.key.same(&ctx.escrow.data.user) {
        return Err(EscrowError::Unauthorized);
    }
    let share = user_share(ctx.escrow.data.amount)?;
    let mut held = ctx.escrow.lamports;
    let mut paid = ctx.user.lamports;
    transfer(&mut held, &mut paid, share)?;
    ctx.escrow.lamports = held;
    ctx.user.lamports = paid;
    ctx.escrow.data.user_settled = true;
    Ok(())
}

/// The error with which the publisher's settlement is refused, checked in
/// this order, or `None` when it succeeds.
pub open spec fn settle_publisher_error(ctx: SettlePublisher, now: i64) -> Option<EscrowError> {
    let e = ctx.escrow.data;
    if e.publisher_settled {
        Some(EscrowError::AlreadySettled)
    } else if e.expired_at(now) {
        Some(EscrowError::EscrowExpired)
    } else if !share_computable(e.amount, PUBLISHER_PERCENTAGE) {
        Some(EscrowError::MathOverflow)
    } else if !transferable(
        ctx.escrow.lamports,
        ctx.publisher.lamports,
        publisher_share_of(e.amount),
    ) {
        Some(EscrowError::TransferFailed)
    } else {
        None
    }
}

/// Pays the publisher's share at ledger time `now` to the publisher named in
/// `ctx`, and marks it settled.
pub fn settle_publisher(ctx: &mut SettlePublisher, now: i64) -> (r: Result<(), EscrowError>)
    ensures
        r is Ok <==> settle_publisher_error(*old(ctx), now) is None,
        r matches Err(e) ==> settle_publisher_error(*old(ctx), now) == Some(e) && *final(ctx)
            == *old(ctx),
        r is Ok ==> *final(ctx) == publisher_paid(*old(ctx)),
        old(ctx).escrow.wf() ==> final(ctx).escrow.wf(),
{
    if ctx.escrow.data.publisher_settled {
        return Err(EscrowError::AlreadySettled);
    }
    if ctx.escrow.data.is_expired(now) {
        return Err(EscrowError::EscrowExpired);
    }
    let share = publisher_share(ctx.escrow.data.amount)?;
    let mut held = ctx.escrow.lamports;
    let mut paid = ctx.publisher.lamports;
    transfer(&mut held, &mut paid, share)?;
    ctx.escrow.lamports = held;
    ctx.publisher.lamports = paid;
    ctx.escrow.data.publisher_settled = true;
    Ok(())
}

/// The error with which the platform's settlement is refused, checked in
/// this order, or `None` when it succeeds.
pub open spec fn settle_platform_error(ctx: SettlePlatform, now: i64) -> Option<EscrowError> {
    let e = ctx.escrow.data;
    if e.platform_settled {
        Some(EscrowError::AlreadySettled)
    } else if e.expired_at(now) {
        Some(EscrowError::EscrowExpired)
    } else if ctx.platform.key@ != e.platform@ {
        Some(EscrowError::Unauthorized)
    } else if !share_computable(e.amount, USER_PERCENTAGE) {
        Some(EscrowError::MathOverflow)
    } else if !transferable(
        ctx.escrow.lamports,
        ctx.platform.lamports,
        platform_share_of(e.amount),
    ) {
        Some(EscrowError::TransferFailed)
    } else {
        None
    }
}

/// Pays the platform's share, the remainder of the payable balance after the
/// user's and the publisher's shares, at ledger time `now`, and marks it
/// settled.
pub fn settle_platform(ctx: &mut SettlePlatform, now: i64) -> (r: Result<(), EscrowError>)
    ensures
        r is Ok <==> settle_platform_error(*old(ctx), now) is None,
        r matches Err(e) ==> settle_platform_error(*old(ctx), now) == Some(e) && *final(ctx)
            == *old(ctx),
        r is Ok ==> *final(ctx) == platform_paid(*old(ctx)),
        old(ctx).escrow.wf() ==> final(ctx).escrow.wf(),
{
    if ctx.escrow.data.platform_settled {
        return Err(EscrowError::AlreadySettled);
    }
    if ctx.escrow.data.is_expired(now) {
        return Err(EscrowError::EscrowExpired);
    }
    if !ctx.platform.key.same(&ctx.escrow.data.platform) {
        return Err(EscrowError::Unauthorized);
    }
    let share = platform_share(ctx.escrow.data.amount)?;
    let mut held = ctx.escrow.lamports;
    let mut paid = ctx.platform.lamports;
    transfer(&mut held, &mut paid, share)?;
    ctx.escrow.lamports = held;
    ctx.platform.lamports = paid;
    ctx.escrow.data.platform_settled = true;
    Ok(())
}

/// What a refund of `acc` pays back: its current balance above the reserve.
pub open spec fn refund_amount_of(acc: EscrowAccount) -> int {
    acc.lamports - RENT_RESERVE
}

/// The accounts after a successful refund: the advertiser has the balance
/// above the reserve back, and every share counts as settled.
pub open spec fn refunded(ctx: RefundEscrow) -> RefundEscrow {
    let refund = refund_amount_of(ctx.escrow);
    let acc = debited(ctx.escrow, refund);
    RefundEscrow {
        escrow: EscrowAccount {
            data: Escrow {
                user_settled: true,
                publisher_settled: true,
                platform_settled: true,
                ..acc.data
            },
            ..acc
        },
        advertiser: credited(ctx.advertiser, refund),
    }
}

/// The error with which a refund is refused, checked in this order, or
/// `None` when it succeeds.
pub open spec fn refund_error(ctx: RefundEscrow, now: i64) -> Option<EscrowError> {
    let e = ctx.escrow.data;
    if e.fully_settled() {
        Some(EscrowError::AlreadySettled)
    } else if !e.expired_at(now) {
        Some(EscrowError::NotExpired)
    } else if ctx.advertiser.key@ != e.advertiser@ {
        Some(EscrowError::Unauthorized)
    } else if ctx.escrow.lamports < RENT_RESERVE {
        Some(EscrowError::MathOverflow)
    } else if !transferable(
        ctx.escrow.lamports,
        ctx.advertiser.lamports,
        refund_amount_of(ctx.escrow),
    ) {
        Some(EscrowError::TransferFailed)
    } else {
        None
    }
}

/// Returns what is left above the reserve to the advertiser at ledger time
/// `now`, once the window has passed, and closes the escrow by marking all
/// three shares settled.
pub fn refund_escrow(ctx: &mut RefundEscrow, now: i64) -> (r: Result<(), EscrowError>)
    ensures
        r is Ok <==> refund_error(*old(ctx), now) is None,
        r matches Err(e) ==> refund_error(*old(ctx), now) == Some(e) && *final(ctx) == *old(ctx),
        r is Ok ==> *final(ctx) == refunded(*old(ctx)),
        old(ctx).escrow.wf() ==> final(ctx).escrow.wf(),
{
    if ctx.escrow.data.is_fully_settled() {
        return Err(EscrowError::AlreadySettled);
    }
    if !ctx.escrow.data.is_expired(now) {
        return Err(EscrowError::NotExpired);
    }
    if !ctx.advertiser.key.same(&ctx.escrow.data.advertiser) {
        return Err(EscrowError::Unauthorized);
    }
    let refund = match ctx.escrow.lamports.checked_sub(RENT_RESERVE) {
        Some(v) => v,
        None => {
            return Err(EscrowError::MathOverflow);
        },
    };
    if refund > 0 {
        let mut held = ctx.escrow.lamports;
        let mut paid = ctx.advertiser.lamports;
        transfer(&mut held, &mut paid, refund)?;
        ctx.escrow.lamports = held;
        ctx.advertiser.lamports = paid;
    }
    ctx.escrow.data.user_settled = true;
    ctx.escrow.data.publisher_settled = true;
    ctx.escrow.data.platform_settled = true;
    Ok(())
}

} // verus!
