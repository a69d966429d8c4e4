//! Events that the escrow emits.

use vstd::prelude::*;

use crate::key::Key;

verus! {

#[derive(Clone, Copy, Debug, PartialEq, Eq)]
pub struct OfferCreated {
    pub offer_id: Key,
    pub bidder: Key,
    pub offered_token: Key,
    pub requested_token: Key,
    pub offered_amount: u64,
    pub requested_amount: u64,
    pub min_requested_amount: u64,
}

#[derive(Clone, Copy, Debug, PartialEq, Eq)]
pub struct OfferAccepted {
    pub offer_id: Key,
    pub amount: u64,
}

#[derive(Clone, Copy, Debug, PartialEq, Eq)]
pub struct OfferUpdated {
    pub offer_id: Key,
    pub new_requested_token_amount: Option<u64>,
    pub new_min_requested_token_amount: Option<u64>,
}

#[derive(Clone, Copy, Debug, PartialEq, Eq)]
pub struct OfferRevoked {
    pub offer_id: Key,
}

#[derive(Clone, Copy, Debug, PartialEq, Eq)]
pub struct ListingCreated {
    pub listing_id: Key,
}

#[derive(Clone, Copy, Debug, PartialEq, Eq)]
pub struct OfferCompleted {
    pub offer_id: Key,
}

} // verus!
