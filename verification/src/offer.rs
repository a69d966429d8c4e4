//! The state of an offer and the address it lives at.

use vstd::bytes::lemma_auto_spec_u64_to_from_le_bytes;
use vstd::bytes::spec_u64_from_le_bytes;
use vstd::bytes::spec_u64_to_le_bytes;
use vstd::bytes::u64_to_le_bytes;
use vstd::prelude::*;
use vstd::string::StrSliceExecFns;
use vstd::string::StringSliceAdditionalSpecFns;

use crate::address::address_option_view;
use crate::address::find_program_address_of;
use crate::address::parsed_key;
use crate::address::program_address;
use crate::address::seeds_view;
use crate::constants::PROGRAM_ID;
use crate::constants::lemma_seed_bytes;
use crate::constants::SEED_OFFER;
use crate::key::Key;

verus! {

/// An offer: the bidder deposits `offered_amount` of `offered_token` and asks
/// for `requested_amount` of `requested_token`, taking part payments of at
/// least `min_requested_amount`; `init_time` tells the bidder's offers apart.
#[derive(Clone, Copy, Debug, PartialEq, Eq)]
pub struct OfferState {
    pub bidder: Key,
    pub seller: Key,
    pub offered_token: Key,
    pub requested_token: Key,
    pub offered_amount: u64,
    pub requested_amount: u64,
    pub min_requested_amount: u64,
    pub init_time: i64,
    pub is_active: bool,
}

/// The offer with its amounts cleared and its flag down; the parties, the
/// tokens and the time stay.
pub open spec fn reset(offer: OfferState) -> OfferState {
    OfferState {
        offered_amount: 0,
        requested_amount: 0,
        min_requested_amount: 0,
        is_active: false,
        ..offer
    }
}

impl OfferState {
    /// Brings the offer back to its default, inactive state.
    pub fn re_init(&mut self)
        ensures
            *final(self) == reset(*old(self)),
    {
        self.offered_amount = 0;
        self.requested_amount = 0;
        self.min_requested_amount = 0;
        self.is_active = false;
    }
}

/// New amounts for a live offer; `None` leaves an amount as it is.
#[derive(Clone, Copy, Debug, PartialEq, Eq, Default)]
pub struct EditOfferInput {
    pub new_requested_token_amount: Option<u64>,
    pub new_min_requested_token_amount: Option<u64>,
}

/// The eight little-endian bytes of a signed time, in two's complement.
pub open spec fn time_bytes(time: i64) -> Seq<u8> {
    spec_u64_to_le_bytes(time as u64)
}

/// The little-endian bytes of a signed time, as `i64::to_le_bytes` gives
/// them; reading them back gives the time's two's-complement bits.
pub fn i64_le_bytes(time: i64) -> (bytes: Vec<u8>)
    ensures
        bytes@ == time_bytes(time),
        bytes@.len() == 8,
        spec_u64_from_le_bytes(bytes@) == time as u64,
{
    proof {
        lemma_auto_spec_u64_to_from_le_bytes();
    }
    u64_to_le_bytes(time as u64)
}

/// The seeds of an offer's address: the offer seed, the creation time, the
/// bidder and the two tokens.
pub open spec fn offer_seeds(offer: OfferState) -> Seq<Seq<u8>> {
    seq![
        SEED_OFFER.spec_bytes(),
        time_bytes(offer.init_time),
        offer.bidder@,
        offer.offered_token@,
        offer.requested_token@,
    ]
}

/// The seeds of an offer's address, in this order: the bytes of "offer",
/// the little-endian bytes of the creation time, the bidder, the offered
/// token and the requested token.
pub fn offer_seed_list(offer: &OfferState) -> (seeds: Vec<Vec<u8>>)
    ensures
        seeds_view(seeds@) == offer_seeds(*offer),
        seeds@.len() == 5,
        seeds@[0]@ == seq![111u8, 102, 102, 101, 114],
        seeds@[1]@ == spec_u64_to_le_bytes(offer.init_time as u64),
        seeds@[2]@ == offer.bidder@,
        seeds@[3]@ == offer.offered_token@,
        seeds@[4]@ == offer.requested_token@,
{
    proof {
        lemma_seed_bytes();
    }
    let mut seeds: Vec<Vec<u8>> = Vec::new();
    seeds.push(SEED_OFFER.as_bytes_vec());
    seeds.push(i64_le_bytes(offer.init_time));
    seeds.push(offer.bidder.to_vec());
    seeds.push(offer.offered_token.to_vec());
    seeds.push(offer.requested_token.to_vec());
    assert(seeds_view(seeds@) =~= offer_seeds(*offer));
    seeds
}

/// The seeds with which the offer's account signs: those of its address and
/// the bump seed.
pub fn offer_signer_seeds(offer: &OfferState, bump: u8) -> (seeds: Vec<Vec<u8>>)
    ensures
        seeds_view(seeds@) == offer_seeds(*offer).push(seq![bump]),
        seeds@.len() == 6,
        seeds@[0]@ == seq![111u8, 102, 102, 101, 114],
        seeds@[1]@ == spec_u64_to_le_bytes(offer.init_time as u64),
        seeds@[2]@ == offer.bidder@,
        seeds@[3]@ == offer.offered_token@,
        seeds@[4]@ == offer.requested_token@,
        seeds@[5]@ == seq![bump],
{
    let mut seeds = offer_seed_list(offer);
    let ghost before = seeds@;
    let mut last: Vec<u8> = Vec::new();
    last.push(bump);
    seeds.push(last);
    assert(seeds_view(seeds@) =~= seeds_view(before).push(seq![bump]));
    seeds
}

/// The offer's address under this program and its bump seed.
pub open spec fn offer_address(offer: OfferState) -> Option<(Seq<u8>, u8)> {
    match parsed_key(PROGRAM_ID@) {
        Some(id) => program_address(offer_seeds(offer), id),
        None => None,
    }
}

/// Finds the offer's address and its bump seed; `None` where the program id
/// does not parse or no bump seed gives an address off the curve.
pub fn find_offer_pda(offer: &OfferState) -> (found: Option<(Key, u8)>)
    ensures
        address_option_view(found) == offer_address(*offer),
        address_option_view(found) == match parsed_key(PROGRAM_ID@) {
            Some(id) => program_address(
                seq![
                    seq![111u8, 102, 102, 101, 114],
                    spec_u64_to_le_bytes(offer.init_time as u64),
                    offer.bidder@,
                    offer.offered_token@,
                    offer.requested_token@,
                ],
                id,
            ),
            None => None,
        },
{
    proof {
        lemma_seed_bytes();
        assert(offer_seeds(*offer) =~= seq![
            seq![111u8, 102, 102, 101, 114],
            spec_u64_to_le_bytes(offer.init_time as u64),
            offer.bidder@,
            offer.offered_token@,
            offer.requested_token@,
        ]);
    }
    let seeds = offer_seed_list(offer);
    find_program_address_of(&seeds, PROGRAM_ID)
}

} // verus!
