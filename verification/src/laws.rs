//! Properties that hold across the instructions on offers.

use vstd::bytes::spec_u64_to_le_bytes;
use vstd::prelude::*;

use crate::address::fee_pda_seeds;
use crate::address::metadata_address;
use crate::address::metadata_seeds;
use crate::address::parsed_key;
use crate::address::program_address;
use crate::constants::lemma_seed_bytes;
use crate::constants::METAPLEX_PROGRAM_ID;
use crate::constants::PROGRAM_ID;
use crate::error::OTCDeskError;
use crate::instructions::accept_completes;
use crate::instructions::accept_offer_effects;
use crate::instructions::create_offer_effects;
use crate::instructions::AcceptOffer;
use crate::instructions::CreateOffer;
use crate::instructions::accept_offer_check;
use crate::instructions::create_offer_check;
use crate::instructions::edit_offer_check;
use crate::instructions::edited_requested_amount;
use crate::instructions::init_offer_state_check;
use crate::instructions::offer_after_init;
use crate::instructions::offer_after_listing;
use crate::instructions::InitOfferState;
use crate::instructions::CreateListing;
use crate::instructions::lemma_share_within_offer;
use crate::instructions::offer_after_accept;
use crate::instructions::offer_after_create;
use crate::instructions::offer_after_edit;
use crate::key::Key;
use crate::offer::offer_address;
use crate::offer::offer_seeds;
use crate::offer::reset;
use crate::offer::EditOfferInput;
use crate::offer::OfferState;

verus! {

/// Once an offer is created it cannot be created again: any second request
/// is refused with `OfferAlreadyCreated`.
pub proof fn lemma_created_offer_cannot_be_recreated(
    offer: OfferState,
    offered_amount: u64,
    requested_amount: u64,
    min_requested_amount: u64,
    fees: u64,
    bidder_balance: u64,
    offered_again: u64,
    requested_again: u64,
    min_again: u64,
    fees_again: u64,
    balance_again: u64,
)
    requires
        create_offer_check(offer, offered_amount, requested_amount, min_requested_amount, fees,
            bidder_balance) is None,
    ensures
        create_offer_check(
            offer_after_create(offer, offered_amount, requested_amount, min_requested_amount),
            offered_again,
            requested_again,
            min_again,
            fees_again,
            balance_again,
        ) == Some(OTCDeskError::OfferAlreadyCreated),
{
}

/// An offer that is not live can be neither edited nor accepted: both are
/// refused with `OfferNotActive` (accepting by anyone but the bidder, whom
/// `SelfOfferAccept` stops first).
pub proof fn lemma_inactive_offer_is_frozen(
    offer: OfferState,
    input: EditOfferInput,
    seller: Key,
    amount: u64,
    fees: u64,
    seller_balance: u64,
)
    requires
        !offer.is_active,
        seller@ != offer.bidder@,
    ensures
        edit_offer_check(offer, input) == Some(OTCDeskError::OfferNotActive),
        accept_offer_check(offer, seller, amount, fees, seller_balance) == Some(OTCDeskError::OfferNotActive),
{
}

/// Repeating an edit that went through changes nothing: it goes through
/// again and leaves the offer as the first one left it.
pub proof fn lemma_edit_is_idempotent(offer: OfferState, input: EditOfferInput)
    requires
        edit_offer_check(offer, input) is None,
    ensures
        edit_offer_check(offer_after_edit(offer, input), input) is None,
        offer_after_edit(offer_after_edit(offer, input), input) == offer_after_edit(offer, input),
{
}

/// Creating, editing and accepting keep the bidder, the seller, the tokens
/// and the creation time, so the offer stays at the same address.
pub proof fn lemma_offer_keeps_its_address(
    offer: OfferState,
    offered_amount: u64,
    requested_amount: u64,
    min_requested_amount: u64,
    input: EditOfferInput,
    amount: u64,
)
    ensures
        offer_seeds(offer_after_create(offer, offered_amount, requested_amount, min_requested_amount))
            == offer_seeds(offer),
        offer_address(offer_after_create(offer, offered_amount, requested_amount, min_requested_amount))
            == offer_address(offer),
        offer_seeds(offer_after_edit(offer, input)) == offer_seeds(offer),
        offer_address(offer_after_edit(offer, input)) == offer_address(offer),
        offer_seeds(offer_after_accept(offer, amount)) == offer_seeds(offer),
        offer_address(offer_after_accept(offer, amount)) == offer_address(offer),
{
    assert(offer_seeds(offer_after_create(offer, offered_amount, requested_amount, min_requested_amount))
        =~= offer_seeds(offer));
    assert(offer_seeds(offer_after_edit(offer, input)) =~= offer_seeds(offer));
    assert(offer_seeds(offer_after_accept(offer, amount)) =~= offer_seeds(offer));
}

/// An accepted payment never raises the offered or the requested amount:
/// the requested amount drops by the payment (or the settled offer is
/// reset), and the seller can cover the payment and the fee.
pub proof fn lemma_accept_only_shrinks_the_offer(
    offer: OfferState,
    seller: Key,
    amount: u64,
    fees: u64,
    seller_balance: u64,
)
    requires
        accept_offer_check(offer, seller, amount, fees, seller_balance) is None,
        offer.requested_amount > 0,
    ensures
        amount + fees <= seller_balance,
        offer_after_accept(offer, amount).requested_amount == offer.requested_amount - amount
            || offer_after_accept(offer, amount) == reset(offer),
        offer_after_accept(offer, amount).requested_amount <= offer.requested_amount,
        offer_after_accept(offer, amount).offered_amount <= offer.offered_amount,
{
    lemma_share_within_offer(offer.offered_amount, amount, offer.requested_amount);
}

/// The escrow keeps covering the offer: the offered tokens released to the
/// seller are exactly what comes off the offered amount, so an offer's token
/// account that held at least the offered amount still holds at least the
/// amount left.
pub proof fn lemma_escrow_covers_the_offer(
    accounts: AcceptOffer,
    offer: OfferState,
    amount: u64,
    fees: u64,
    escrow_balance: u64,
)
    requires
        accept_offer_check(offer, accounts.seller, amount, fees, accounts.seller_requested_token_balance)
            is None,
        offer.requested_amount > 0,
        escrow_balance >= offer.offered_amount,
    ensures
        ({
            let released = accept_offer_effects(accounts, offer, amount, fees).release.amount;
            let after = offer_after_accept(offer, amount);
            &&& released + after.offered_amount == offer.offered_amount
            &&& escrow_balance - released - after.offered_amount == escrow_balance - offer.offered_amount
            &&& escrow_balance - released >= after.offered_amount
        }),
{
    lemma_share_within_offer(offer.offered_amount, amount, offer.requested_amount);
}

/// A payment that settles the offer resets it, and the reset offer can be
/// created anew: a request that passes the amount and balance checks goes
/// through.
pub proof fn lemma_settled_offer_can_be_created_again(
    offer: OfferState,
    seller: Key,
    amount: u64,
    fees: u64,
    seller_balance: u64,
    offered_amount: u64,
    requested_amount: u64,
    min_requested_amount: u64,
    new_fees: u64,
    bidder_balance: u64,
)
    requires
        accept_offer_check(offer, seller, amount, fees, seller_balance) is None,
        accept_completes(offer, amount),
        min_requested_amount <= requested_amount,
        offered_amount + new_fees <= bidder_balance,
    ensures
        offer_after_accept(offer, amount) == reset(offer),
        !offer_after_accept(offer, amount).is_active,
        create_offer_check(offer_after_accept(offer, amount), offered_amount, requested_amount,
            min_requested_amount, new_fees, bidder_balance) is None,
{
}

/// The minimum of an offer stays at most its requested amount: creating an
/// offer establishes it; accepting keeps it when what is left to request is
/// nothing (a settled offer is reset to zeros) or at least the minimum; an
/// edit keeps it when it sets a minimum or leaves the requested amount at
/// least the old minimum.
pub proof fn lemma_minimum_within_request(
    offer: OfferState,
    offered_amount: u64,
    requested_amount: u64,
    min_requested_amount: u64,
    fees: u64,
    bidder_balance: u64,
    input: EditOfferInput,
    seller: Key,
    amount: u64,
    seller_balance: u64,
)
    ensures
        create_offer_check(offer, offered_amount, requested_amount, min_requested_amount, fees,
            bidder_balance) is None ==> {
            let created = offer_after_create(offer, offered_amount, requested_amount, min_requested_amount);
            created.min_requested_amount <= created.requested_amount
        },
        edit_offer_check(offer, input) is None && (input.new_min_requested_token_amount is Some
            || offer.min_requested_amount <= edited_requested_amount(offer, input)) ==> {
            let edited = offer_after_edit(offer, input);
            edited.min_requested_amount <= edited.requested_amount
        },
        accept_offer_check(offer, seller, amount, fees, seller_balance) is None && (offer.requested_amount
            == amount || offer.requested_amount - amount >= offer.min_requested_amount) ==> {
            let accepted = offer_after_accept(offer, amount);
            accepted.min_requested_amount <= accepted.requested_amount
        },
{
}

/// What a created offer announces is what it holds: the event and the
/// deposit carry the amounts of the live offer.
pub proof fn lemma_created_offer_announces_its_amounts(
    accounts: CreateOffer,
    offer: OfferState,
    offered_amount: u64,
    requested_amount: u64,
    min_requested_amount: u64,
    fees: u64,
)
    ensures
        ({
            let created = offer_after_create(offer, offered_amount, requested_amount, min_requested_amount);
            let effects = create_offer_effects(accounts, offer, offered_amount, requested_amount,
                min_requested_amount, fees);
            &&& effects.deposit.amount == created.offered_amount
            &&& effects.event.offered_amount == created.offered_amount
            &&& effects.event.requested_amount == created.requested_amount
            &&& effects.event.min_requested_amount == created.min_requested_amount
            &&& effects.event.offered_token == created.offered_token
            &&& effects.event.requested_token == created.requested_token
        }),
{
}

/// An accepted offer stops being live exactly when `OfferCompleted` is
/// emitted, and then it is reset.
pub proof fn lemma_completion_is_announced(
    accounts: AcceptOffer,
    offer: OfferState,
    amount: u64,
    fees: u64,
)
    requires
        accept_offer_check(offer, accounts.seller, amount, fees, accounts.seller_requested_token_balance)
            is None,
    ensures
        !offer_after_accept(offer, amount).is_active <==> accept_offer_effects(accounts, offer, amount,
            fees).completed is Some,
        accept_offer_effects(accounts, offer, amount, fees).completed is Some ==> offer_after_accept(
            offer,
            amount,
        ) == reset(offer),
{
}

/// A created offer is live, asks a minimum within its request, and has its
/// offered amount deposited into its token account.
pub proof fn lemma_created_offer_is_live_and_covered(
    accounts: CreateOffer,
    offer: OfferState,
    offered_amount: u64,
    requested_amount: u64,
    min_requested_amount: u64,
    fees: u64,
)
    requires
        create_offer_check(offer, offered_amount, requested_amount, min_requested_amount, fees,
            accounts.bidder_ata_balance) is None,
    ensures
        ({
            let created = offer_after_create(offer, offered_amount, requested_amount, min_requested_amount);
            let effects = create_offer_effects(accounts, offer, offered_amount, requested_amount,
                min_requested_amount, fees);
            &&& created.is_active
            &&& created.min_requested_amount <= created.requested_amount
            &&& effects.deposit.to == accounts.offer_state_ata
            &&& effects.deposit.amount == created.offered_amount
            &&& effects.deposit.amount + effects.fee_transfer.amount <= accounts.bidder_ata_balance
        }),
{
}

// ---------------------------------------------------------------------------
// What each operation does, stated over its inputs
// ---------------------------------------------------------------------------

/// An edit of a live offer that asks a non-zero amount `r` and a minimum `m`
/// no larger than `r` goes through and leaves exactly those two amounts,
/// whatever the old ones were; nothing else changes.
pub proof fn lemma_edit_sets_both_amounts(offer: OfferState, r: u64, m: u64)
    requires
        offer.is_active,
        r > 0,
        m <= r,
    ensures
        ({
            let input = EditOfferInput {
                new_requested_token_amount: Some(r),
                new_min_requested_token_amount: Some(m),
            };
            &&& edit_offer_check(offer, input) is None
            &&& offer_after_edit(offer, input) == (OfferState {
                requested_amount: r,
                min_requested_amount: m,
                ..offer
            })
        }),
{
}

/// An edit of a live offer that asks only a non-zero amount `r` goes
/// through, sets the requested amount to `r` and keeps the minimum, even
/// when `r` is below it.
pub proof fn lemma_edit_sets_request_alone(offer: OfferState, r: u64)
    requires
        offer.is_active,
        r > 0,
    ensures
        ({
            let input = EditOfferInput { new_requested_token_amount: Some(r), new_min_requested_token_amount: None };
            &&& edit_offer_check(offer, input) is None
            &&& offer_after_edit(offer, input) == (OfferState { requested_amount: r, ..offer })
        }),
{
}

/// An edit of a live offer that asks only a minimum `m` within the
/// requested amount goes through and sets the minimum to `m`.
pub proof fn lemma_edit_sets_minimum_alone(offer: OfferState, m: u64)
    requires
        offer.is_active,
        m <= offer.requested_amount,
    ensures
        ({
            let input = EditOfferInput { new_requested_token_amount: None, new_min_requested_token_amount: Some(m) };
            &&& edit_offer_check(offer, input) is None
            &&& offer_after_edit(offer, input) == (OfferState { min_requested_amount: m, ..offer })
        }),
{
}

/// Asking a requested amount of zero is always refused with
/// `ZeroRequestedAmount` on a live offer, whether or not a minimum is given;
/// so an edit that goes through with a new requested amount leaves it above
/// zero.
pub proof fn lemma_edit_refuses_zero_request(offer: OfferState, min: Option<u64>, input: EditOfferInput)
    requires
        offer.is_active,
    ensures
        edit_offer_check(
            offer,
            EditOfferInput { new_requested_token_amount: Some(0u64), new_min_requested_token_amount: min },
        ) == Some(OTCDeskError::ZeroRequestedAmount),
        edit_offer_check(offer, input) is None && input.new_requested_token_amount is Some ==> {
            &&& offer_after_edit(offer, input).requested_amount > 0
            &&& offer_after_edit(offer, input).requested_amount == input.new_requested_token_amount->0
        },
{
}

/// A minimum above the requested amount the edit leaves (the new one if
/// given, else the old one) is refused with `TooHighAmount`.
pub proof fn lemma_edit_refuses_minimum_above_request(offer: OfferState, r: Option<u64>, m: u64)
    requires
        offer.is_active,
        r != Some(0u64),
        m > match r {
            Some(x) => x,
            None => offer.requested_amount,
        },
    ensures
        edit_offer_check(
            offer,
            EditOfferInput { new_requested_token_amount: r, new_min_requested_token_amount: Some(m) },
        ) == Some(OTCDeskError::TooHighAmount),
{
}

/// Setting up an offer goes through exactly when both allowed-token
/// accounts are owned by the program, is refused with `TokenNotAllowed`
/// otherwise, and records the bidder, the two tokens and the time, keeping
/// everything else.
pub proof fn lemma_init_needs_program_owned_checkers(
    accounts: InitOfferState,
    program_id: Key,
    offer: OfferState,
    init_time: i64,
)
    ensures
        init_offer_state_check(accounts, program_id) is None <==> (
        accounts.offered_token_allowed_checker_owner@ == program_id@
            && accounts.requested_token_allowed_checker_owner@ == program_id@),
        init_offer_state_check(accounts, program_id) is Some ==> init_offer_state_check(accounts, program_id)
            == Some(OTCDeskError::TokenNotAllowed),
        offer_after_init(offer, accounts, init_time) == (OfferState {
            bidder: accounts.bidder,
            offered_token: accounts.offered_token,
            requested_token: accounts.requested_token,
            init_time: init_time,
            ..offer
        }),
{
}

/// A listing records the seller, the two tokens and the time, keeping
/// everything else.
pub proof fn lemma_listing_records_the_seller(offer: OfferState, accounts: CreateListing, init_time: i64)
    ensures
        offer_after_listing(offer, accounts, init_time) == (OfferState {
            seller: accounts.seller,
            offered_token: accounts.offered_token,
            requested_token: accounts.requested_token,
            init_time: init_time,
            ..offer
        }),
{
}

/// An offer's seeds are, in this order, the bytes of "offer", the
/// little-endian bytes of its creation time, the bidder, the offered token
/// and the requested token; its address is the one the search gives for
/// them under the program.
pub proof fn lemma_offer_seeds_in_order(offer: OfferState)
    ensures
        offer_seeds(offer) == seq![
            seq![111u8, 102, 102, 101, 114],
            spec_u64_to_le_bytes(offer.init_time as u64),
            offer.bidder@,
            offer.offered_token@,
            offer.requested_token@,
        ],
        offer_address(offer) == match parsed_key(PROGRAM_ID@) {
            Some(id) => program_address(
                seq![
                    seq![111u8, 102, 102, 101, 114],
                    spec_u64_to_le_bytes(offer.init_time as u64),
                    offer.bidder@,
                    offer.offered_token@,
                    offer.requested_token@,
                ],
                id,
            ),
            None => None,
        },
{
    lemma_seed_bytes();
    assert(offer_seeds(offer) =~= seq![
        seq![111u8, 102, 102, 101, 114],
        spec_u64_to_le_bytes(offer.init_time as u64),
        offer.bidder@,
        offer.offered_token@,
        offer.requested_token@,
    ]);
}

/// The fee payer seeds are the bytes of "auction_house", the house and the
/// bytes of "fee_payer"; the metadata seeds are the bytes of "metadata",
/// the metadata program and the mint, searched under the metadata program.
pub proof fn lemma_fee_and_metadata_seeds_in_order(escrow_house: Seq<u8>, mint: Seq<u8>)
    ensures
        fee_pda_seeds(escrow_house) == seq![
            seq![97u8, 117, 99, 116, 105, 111, 110, 95, 104, 111, 117, 115, 101],
            escrow_house,
            seq![102u8, 101, 101, 95, 112, 97, 121, 101, 114],
        ],
        metadata_address(mint) == match parsed_key(METAPLEX_PROGRAM_ID@) {
            Some(id) => program_address(seq![seq![109u8, 101, 116, 97, 100, 97, 116, 97], id, mint], id),
            None => None,
        },
{
    lemma_seed_bytes();
    assert(fee_pda_seeds(escrow_house) =~= seq![
        seq![97u8, 117, 99, 116, 105, 111, 110, 95, 104, 111, 117, 115, 101],
        escrow_house,
        seq![102u8, 101, 101, 95, 112, 97, 121, 101, 114],
    ]);
    if parsed_key(METAPLEX_PROGRAM_ID@) is Some {
        let id = parsed_key(METAPLEX_PROGRAM_ID@)->0;
        assert(metadata_seeds(id, mint) =~= seq![seq![109u8, 101, 116, 97, 100, 97, 116, 97], id, mint]);
    }
}

/// Creating an inactive offer with a minimum within the request and a
/// balance covering the offered amount and the fee goes through and makes
/// the offer live with exactly those amounts; a minimum above the request
/// is refused with `TooHighAmount`, and a short balance with
/// `NotEnoughToken`.
pub proof fn lemma_create_offer_outcomes(
    offer: OfferState,
    offered_amount: u64,
    requested_amount: u64,
    min_requested_amount: u64,
    fees: u64,
    bidder_balance: u64,
)
    requires
        !offer.is_active,
    ensures
        min_requested_amount > requested_amount ==> create_offer_check(offer, offered_amount,
            requested_amount, min_requested_amount, fees, bidder_balance) == Some(
            OTCDeskError::TooHighAmount,
        ),
        min_requested_amount <= requested_amount && offered_amount + fees > bidder_balance
            ==> create_offer_check(offer, offered_amount, requested_amount, min_requested_amount, fees,
            bidder_balance) == Some(OTCDeskError::NotEnoughToken),
        min_requested_amount <= requested_amount && offered_amount + fees <= bidder_balance ==> {
            &&& create_offer_check(offer, offered_amount, requested_amount, min_requested_amount, fees,
                bidder_balance) is None
            &&& offer_after_create(offer, offered_amount, requested_amount, min_requested_amount) == (
            OfferState {
                offered_amount: offered_amount,
                requested_amount: requested_amount,
                min_requested_amount: min_requested_amount,
                is_active: true,
                ..offer
            })
        },
{
}

/// A payment by anyone but the bidder, between the minimum and the
/// requested amount, that the seller's balance covers with its fee, goes
/// through on a live offer: the request drops by the payment and the offered
/// amount by the released share, unless the payment settles an offer with a
/// positive minimum, which is then reset.
pub proof fn lemma_accept_offer_goes_through(
    accounts: AcceptOffer,
    offer: OfferState,
    amount: u64,
    fees: u64,
)
    requires
        accounts.seller@ != offer.bidder@,
        offer.is_active,
        offer.min_requested_amount <= amount <= offer.requested_amount,
        amount + fees <= accounts.seller_requested_token_balance,
        offer.requested_amount > 0,
    ensures
        accept_offer_check(offer, accounts.seller, amount, fees, accounts.seller_requested_token_balance)
            is None,
        accept_offer_effects(accounts, offer, amount, fees).release.amount == (offer.offered_amount
            * amount) / (offer.requested_amount as int),
        accept_offer_effects(accounts, offer, amount, fees).payment.amount == amount,
        accept_offer_effects(accounts, offer, amount, fees).fee_transfer.amount == fees,
        amount == offer.requested_amount && offer.min_requested_amount > 0 ==> offer_after_accept(
            offer,
            amount,
        ) == (OfferState {
            offered_amount: 0,
            requested_amount: 0,
            min_requested_amount: 0,
            is_active: false,
            ..offer
        }),
        !(amount == offer.requested_amount && offer.min_requested_amount > 0) ==> {
            &&& offer_after_accept(offer, amount).is_active
            &&& offer_after_accept(offer, amount).requested_amount == offer.requested_amount - amount
            &&& offer_after_accept(offer, amount).offered_amount == offer.offered_amount - accept_offer_effects(
                accounts,
                offer,
                amount,
                fees,
            ).release.amount
        },
{
    lemma_share_within_offer(offer.offered_amount, amount, offer.requested_amount);
}

} // verus!
