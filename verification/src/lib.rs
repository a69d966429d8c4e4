//! Verified core of an over-the-counter token escrow: a bidder deposits
//! tokens into an offer and asks for other tokens in exchange; a seller
//! accepts the offer in whole or in part.

pub mod address;
pub mod constants;
pub mod error;
pub mod events;
pub mod instructions;
pub mod key;
pub mod laws;
pub mod main_state;
pub mod offer;
