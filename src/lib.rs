//! Escrow custody for a three-party impression payment.
//!
//! An advertiser locks funds in a per-offer record; a user, a publisher and a
//! platform each later draw a fixed share of the funds above a retained
//! reserve, once each, inside a validity window. After the window an
//! advertiser may take back what is left unless everything was settled.
pub mod address;
pub mod derivation;
pub mod error;
pub mod escrow;
pub mod instructions;
pub mod laws;
pub mod split;

pub use address::Address;
pub use derivation::{escrow_address, MAX_SEED_LEN};
pub use error::EscrowError;
pub use escrow::{Escrow, EscrowAccount, Wallet, ESCROW_EXPIRY_DURATION, MAX_OFFER_ID_LEN};
pub use instructions::{
    create_escrow, refund_escrow, settle_platform, settle_publisher, settle_user, CreateEscrow,
    RefundEscrow, SettlePlatform, SettlePublisher, SettleUser,
};
pub use split::{
    payable, platform_share, publisher_share, user_share, PUBLISHER_PERCENTAGE, RENT_RESERVE,
    USER_PERCENTAGE,
};
