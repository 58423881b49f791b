//! The escrow record, the accounts around it, and its well-formedness.
use vstd::prelude::*;
use vstd::utf8::encode_utf8;

use crate::address::Address;
use crate::error::EscrowError;
use crate::split::{platform_share_of, publisher_share_of, user_share_of, RENT_RESERVE};

verus! {

/// How long, in seconds, an escrow can be settled after its creation
/// (fourteen days). After that only a refund is possible.
pub const ESCROW_EXPIRY_DURATION: i64 = 14 * 24 * 60 * 60;

/// The longest offer identifier, in bytes, that a record holds.
pub const MAX_OFFER_ID_LEN: usize = 64;

/// The length in bytes of an offer identifier.
pub open spec fn offer_id_len(offer_id: Seq<char>) -> nat {
    encode_utf8(offer_id).len()
}

/// The escrow record of one offer.
#[derive(Clone, Debug)]
pub struct Escrow {
    /// Identifier of the advertising offer; the record's address derives from it.
    pub offer_id: String,
    /// Advertiser who created and funded the escrow.
    pub advertiser: Address,
    /// User who views the ad and receives the largest share.
    pub user: Address,
    /// Platform wallet, which receives the remainder.
    pub platform: Address,
    /// Amount locked at creation, reserve included.
    pub amount: u64,
    /// Ledger time, in seconds, at which the escrow was created.
    pub created_at: i64,
    pub user_settled: bool,
    pub publisher_settled: bool,
    pub platform_settled: bool,
    /// Derivation nonce of the record's address.
    pub bump: u8,
}

/// A plain ledger account: its key and its balance.
#[derive(Clone, Copy, Debug)]
pub struct Wallet {
    pub key: Address,
    pub lamports: u64,
}

/// The account that holds an escrow record and the escrowed balance.
#[derive(Clone, Debug)]
pub struct EscrowAccount {
    pub key: Address,
    pub lamports: u64,
    pub data: Escrow,
}

impl Escrow {
    /// The last moment, in seconds, at which the escrow can be settled.
    pub open spec fn deadline(&self) -> int {
        self.created_at + ESCROW_EXPIRY_DURATION
    }

    pub open spec fn expired_at(&self, now: i64) -> bool {
        now > self.deadline()
    }

    pub open spec fn fully_settled(&self) -> bool {
        self.user_settled && self.publisher_settled && self.platform_settled
    }

    pub open spec fn none_settled(&self) -> bool {
        !self.user_settled && !self.publisher_settled && !self.platform_settled
    }

    /// The shares not paid out yet.
    pub open spec fn outstanding(&self) -> int {
        (if self.user_settled { 0 } else { user_share_of(self.amount) }) + (if self.publisher_settled {
            0
        } else {
            publisher_share_of(self.amount)
        }) + (if self.platform_settled { 0 } else { platform_share_of(self.amount) })
    }

    /// Whether the settlement window has passed at ledger time `now`.
    pub fn is_expired(&self, now: i64) -> (r: bool)
        ensures
            r == self.expired_at(now),
    {
        (now as i128) > (self.created_at as i128) + (ESCROW_EXPIRY_DURATION as i128)
    }

    /// Whether all three shares have been settled.
    pub fn is_fully_settled(&self) -> (r: bool)
        ensures
            r == self.fully_settled(),
    {
        self.user_settled && self.publisher_settled && self.platform_settled
    }
}

impl EscrowAccount {
    /// The funding covers more than the reserve, and the balance still covers
    /// the reserve together with every share that has not been paid.
    pub open spec fn wf(&self) -> bool {
        &&& self.data.amount > RENT_RESERVE
        &&& self.lamports >= RENT_RESERVE + self.data.outstanding()
    }
}

/// `amount` can move from a balance of `from` to a balance of `to`.
pub open spec fn transferable(from: u64, to: u64, amount: int) -> bool {
    amount <= from && to + amount <= u64::MAX
}

/// Moves `amount` from one balance to another, or changes neither.
pub(crate) fn transfer(from: &mut u64, to: &mut u64, amount: u64) -> (r: Result<(), EscrowError>)
    ensures
        r is Ok <==> transferable(*old(from), *old(to), amount as int),
        r is Ok ==> *final(from) == *old(from) - amount && *final(to) == *old(to) + amount,
        r matches Err(e) ==> e == EscrowError::TransferFailed && *final(from) == *old(from)
            && *final(to) == *old(to),
{
    if amount > *from {
        return Err(EscrowError::TransferFailed);
    }
    match to.checked_add(amount) {
        Some(v) => {
            *from = *from - amount;
            *to = v;
            Ok(())
        },
        None => Err(EscrowError::TransferFailed),
    }
}

} // verus!
