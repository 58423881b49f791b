//! Properties that relate several operations or calls.
use vstd::prelude::*;

use crate::error::EscrowError;
use crate::escrow::{EscrowAccount, Wallet};
use crate::instructions::{
    publisher_paid, refund_amount_of, refund_error, refunded, settle_platform_error,
    settle_publisher_error, settle_user_error, user_paid, platform_paid, RefundEscrow,
    SettlePlatform, SettlePublisher, SettleUser,
};
use crate::split::{
    lemma_shares_within_payable, payable_of, platform_share_of, publisher_share_of,
    share_computable, user_share_of, RENT_RESERVE, USER_PERCENTAGE,
};

verus! {

/// Each settlement takes effect once: after a successful settlement, the same
/// settlement asked again, at any time, is refused as already settled, so the
/// balances move on the first call only.
pub proof fn settlements_take_effect_once(
    u: SettleUser,
    p: SettlePublisher,
    q: SettlePlatform,
    first: i64,
    second: i64,
)
    ensures
        settle_user_error(u, first) is None ==> settle_user_error(user_paid(u), second) == Some(
            EscrowError::AlreadySettled,
        ),
        settle_publisher_error(p, first) is None ==> settle_publisher_error(
            publisher_paid(p),
            second,
        ) == Some(EscrowError::AlreadySettled),
        settle_platform_error(q, first) is None ==> settle_platform_error(
            platform_paid(q),
            second,
        ) == Some(EscrowError::AlreadySettled),
{
}

/// The three shares of an escrow make up its balance above the reserve
/// exactly, none of them negative, whatever the funded amount, as long as the
/// shares can be computed at all.
pub proof fn shares_make_up_payable(amount: u64)
    requires
        amount > RENT_RESERVE,
        share_computable(amount, USER_PERCENTAGE),
    ensures
        user_share_of(amount) >= 0,
        publisher_share_of(amount) >= 0,
        platform_share_of(amount) >= 0,
        user_share_of(amount) + publisher_share_of(amount) + platform_share_of(amount)
            == payable_of(amount),
{
    lemma_shares_within_payable(amount);
}

/// Settling the user, then the publisher, then the platform of a fresh,
/// well-formed escrow inside its window, each with the party it records,
/// succeeds wherever the payees' balances have room, pays out exactly the
/// funded amount less the reserve, and leaves the reserve behind.
pub proof fn full_settlement_pays_out_payable(
    acc: EscrowAccount,
    user: Wallet,
    publisher: Wallet,
    platform: Wallet,
    t1: i64,
    t2: i64,
    t3: i64,
)
    requires
        acc.wf(),
        acc.lamports == acc.data.amount,
        acc.data.none_settled(),
        share_computable(acc.data.amount, USER_PERCENTAGE),
        !acc.data.expired_at(t1),
        !acc.data.expired_at(t2),
        !acc.data.expired_at(t3),
        user.key@ == acc.data.user@,
        platform.key@ == acc.data.platform@,
        user.lamports + user_share_of(acc.data.amount) <= u64::MAX,
        publisher.lamports + publisher_share_of(acc.data.amount) <= u64::MAX,
        platform.lamports + platform_share_of(acc.data.amount) <= u64::MAX,
    ensures
        ({
            let s1 = (SettleUser { escrow: acc, user });
            let a1 = user_paid(s1).escrow;
            let s2 = (SettlePublisher { escrow: a1, publisher });
            let a2 = publisher_paid(s2).escrow;
            let s3 = (SettlePlatform { escrow: a2, platform });
            let a3 = platform_paid(s3).escrow;
            &&& settle_user_error(s1, t1) is None
            &&& settle_publisher_error(s2, t2) is None
            &&& settle_platform_error(s3, t3) is None
            &&& a3.data.fully_settled()
            &&& (user_paid(s1).user.lamports - user.lamports) + (publisher_paid(s2).publisher.lamports
                - publisher.lamports) + (platform_paid(s3).platform.lamports - platform.lamports)
                == payable_of(acc.data.amount)
            &&& a3.lamports == RENT_RESERVE
        }),
{
    lemma_shares_within_payable(acc.data.amount);
}

/// Once the window has passed, every settlement fails; one that was not made
/// before fails as expired.
pub proof fn settlement_after_window_fails(
    u: SettleUser,
    p: SettlePublisher,
    q: SettlePlatform,
    now: i64,
)
    ensures
        u.escrow.data.expired_at(now) ==> settle_user_error(u, now) is Some,
        u.escrow.data.expired_at(now) && !u.escrow.data.user_settled ==> settle_user_error(u, now)
            == Some(EscrowError::EscrowExpired),
        p.escrow.data.expired_at(now) ==> settle_publisher_error(p, now) is Some,
        p.escrow.data.expired_at(now) && !p.escrow.data.publisher_settled
            ==> settle_publisher_error(p, now) == Some(EscrowError::EscrowExpired),
        q.escrow.data.expired_at(now) ==> settle_platform_error(q, now) is Some,
        q.escrow.data.expired_at(now) && !q.escrow.data.platform_settled
            ==> settle_platform_error(q, now) == Some(EscrowError::EscrowExpired),
{
}

/// A refund inside the window fails as not expired; one of a fully settled
/// escrow fails as already settled; one after the window of a well-formed
/// escrow that is not fully settled, asked by its advertiser, succeeds
/// wherever the advertiser's balance has room, and pays exactly the current
/// balance less the reserve.
pub proof fn refund_only_after_window(ctx: RefundEscrow, now: i64)
    ensures
        !ctx.escrow.data.fully_settled() && !ctx.escrow.data.expired_at(now) ==> refund_error(
            ctx,
            now,
        ) == Some(EscrowError::NotExpired),
        ctx.escrow.data.fully_settled() ==> refund_error(ctx, now) == Some(
            EscrowError::AlreadySettled,
        ),
        ({
            &&& ctx.escrow.wf()
            &&& !ctx.escrow.data.fully_settled()
            &&& ctx.escrow.data.expired_at(now)
            &&& ctx.advertiser.key@ == ctx.escrow.data.advertiser@
            &&& ctx.advertiser.lamports + refund_amount_of(ctx.escrow) <= u64::MAX
        }) ==> {
            &&& refund_error(ctx, now) is None
            &&& refunded(ctx).advertiser.lamports == ctx.advertiser.lamports + (ctx.escrow.lamports
                - RENT_RESERVE)
            &&& refunded(ctx).escrow.lamports == RENT_RESERVE
        },
{
    if ctx.escrow.wf() {
        lemma_shares_within_payable(ctx.escrow.data.amount);
    }
}

/// A refund closes the escrow: asked again, at any time, it fails as already
/// settled.
pub proof fn refund_closes_escrow(ctx: RefundEscrow, first: i64, second: i64)
    requires
        refund_error(ctx, first) is None,
    ensures
        refunded(ctx).escrow.data.fully_settled(),
        refund_error(refunded(ctx), second) == Some(EscrowError::AlreadySettled),
{
}

/// A user's settlement asked with another identity than the recorded user,
/// while the share is unpaid and the window open, fails as unauthorized.
pub proof fn wrong_user_is_unauthorized(ctx: SettleUser, now: i64)
    requires
        !ctx.escrow.data.user_settled,
        !ctx.escrow.data.expired_at(now),
        ctx.user.key@ != ctx.escrow.data.user@,
    ensures
        settle_user_error(ctx, now) == Some(EscrowError::Unauthorized),
{
}

} // verus!
