//! The errors of the escrow operations.
use vstd::prelude::*;

verus! {

/// Why an escrow operation was refused. A refused operation changes nothing.
#[derive(Clone, Copy, Debug, PartialEq, Eq, Structural)]
pub enum EscrowError {
    /// The settlement was already made, or the escrow is closed.
    AlreadySettled,
    /// The validity window has passed; only a refund remains possible.
    EscrowExpired,
    /// The validity window has not passed yet, so no refund is possible.
    NotExpired,
    /// The party named does not match the one recorded in the escrow.
    Unauthorized,
    /// The funding does not exceed the retained reserve.
    InvalidAmount,
    /// The offer identifier is longer than the record can hold.
    OfferIdTooLong,
    /// A share could not be computed without leaving the integer range.
    MathOverflow,
    /// A record already exists for the offer identifier.
    DuplicateRecord,
    /// A balance transfer could not be carried out.
    TransferFailed,
}

/// The first numeric code of this program's own errors.
pub const ERROR_CODE_OFFSET: u32 = 6000;

impl EscrowError {
    /// The numeric code under which the error is reported to callers.
    pub fn code(&self) -> (r: u32)
        ensures
            r == ERROR_CODE_OFFSET + self.index(),
    {
        match self {
            EscrowError::AlreadySettled => ERROR_CODE_OFFSET,
            EscrowError::EscrowExpired => ERROR_CODE_OFFSET + 1,
            EscrowError::NotExpired => ERROR_CODE_OFFSET + 2,
            EscrowError::Unauthorized => ERROR_CODE_OFFSET + 3,
            EscrowError::InvalidAmount => ERROR_CODE_OFFSET + 4,
            EscrowError::OfferIdTooLong => ERROR_CODE_OFFSET + 5,
            EscrowError::MathOverflow => ERROR_CODE_OFFSET + 6,
            EscrowError::DuplicateRecord => ERROR_CODE_OFFSET + 7,
            EscrowError::TransferFailed => ERROR_CODE_OFFSET + 8,
        }
    }

    /// The position of the variant in the declaration.
    pub open spec fn index(&self) -> nat {
        match self {
            EscrowError::AlreadySettled => 0,
            EscrowError::EscrowExpired => 1,
            EscrowError::NotExpired => 2,
            EscrowError::Unauthorized => 3,
            EscrowError::InvalidAmount => 4,
            EscrowError::OfferIdTooLong => 5,
            EscrowError::MathOverflow => 6,
            EscrowError::DuplicateRecord => 7,
            EscrowError::TransferFailed => 8,
        }
    }

    /// A human-readable description of the error.
    pub fn message(&self) -> &'static str {
        match self {
            EscrowError::AlreadySettled => "Escrow has already been settled or refunded",
            EscrowError::EscrowExpired => "Escrow has expired and should be refunded",
            EscrowError::NotExpired => "Escrow has not yet expired and cannot be refunded",
            EscrowError::Unauthorized => "Unauthorized: signer does not match expected party",
            EscrowError::InvalidAmount => "Invalid amount: must exceed the retained reserve",
            EscrowError::OfferIdTooLong => "Offer ID exceeds maximum length of 64 bytes",
            EscrowError::MathOverflow => "Math operation overflow",
            EscrowError::DuplicateRecord => "An escrow already exists for this offer ID",
            EscrowError::TransferFailed => "Balance transfer failed",
        }
    }
}

} // verus!
