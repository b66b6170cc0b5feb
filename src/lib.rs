//! A two-party escrow: a creator locks a payment for a named recipient, who
//! may accept it, unless the creator cancels it first.

pub mod contract;
pub mod laws;
pub mod lifecycle;
pub mod offer;

pub use contract::EscrowContract;
pub use lifecycle::check_create;
pub use offer::{Address, EscrowError, Offer, OfferStatus, Payout};
