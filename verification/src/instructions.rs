//! The instructions on offers: each takes the accounts it reads as plain
//! values, checks the request, updates the offer, and answers with the token
//! transfers to make and the events to emit. A refused request leaves the
//! offer as it was.

use vstd::prelude::*;

use crate::error::OTCDeskError;
use crate::events::OfferAccepted;
use crate::events::OfferCompleted;
use crate::events::OfferCreated;
use crate::events::OfferUpdated;
use crate::key::Key;
use crate::offer::reset;
use crate::offer::EditOfferInput;
use crate::offer::OfferState;

verus! {

/// A transfer of `amount` tokens from the token account `from` to the token
/// account `to`, signed by `authority`.
#[derive(Clone, Copy, Debug, PartialEq, Eq)]
pub struct TokenTransfer {
    pub from: Key,
    pub to: Key,
    pub authority: Key,
    pub amount: u64,
}

// ---------------------------------------------------------------------------
// Creating an offer
// ---------------------------------------------------------------------------

/// What creating an offer reads besides the offer: the bidder, the bidder's
/// token account and its balance, the offer's account and token account, and
/// the fee receiver's token account.
#[derive(Clone, Copy, Debug, PartialEq, Eq)]
pub struct CreateOffer {
    pub bidder: Key,
    pub bidder_ata: Key,
    pub bidder_ata_balance: u64,
    pub offer_state_account: Key,
    pub offer_state_ata: Key,
    pub fee_receiver_ata: Key,
}

/// What a created offer asks for: the fee to the fee receiver, the deposit
/// into the offer's token account, and the event.
#[derive(Clone, Copy, Debug, PartialEq, Eq)]
pub struct CreateOfferEffects {
    pub fee_transfer: TokenTransfer,
    pub deposit: TokenTransfer,
    pub event: OfferCreated,
}

/// Why creating an offer is refused, if it is.
pub open spec fn create_offer_check(
    offer: OfferState,
    offered_amount: u64,
    requested_amount: u64,
    min_requested_amount: u64,
    fees: u64,
    bidder_balance: u64,
) -> Option<OTCDeskError> {
    if offer.is_active {
        Some(OTCDeskError::OfferAlreadyCreated)
    } else if min_requested_amount > requested_amount {
        Some(OTCDeskError::TooHighAmount)
    } else if offered_amount + fees > bidder_balance {
        Some(OTCDeskError::NotEnoughToken)
    } else {
        None
    }
}

/// Whether creating the offer gets as far as the balance check.
pub open spec fn create_offer_reaches_balance_check(
    offer: OfferState,
    requested_amount: u64,
    min_requested_amount: u64,
) -> bool {
    !offer.is_active && min_requested_amount <= requested_amount
}

/// The offer once created.
pub open spec fn offer_after_create(
    offer: OfferState,
    offered_amount: u64,
    requested_amount: u64,
    min_requested_amount: u64,
) -> OfferState {
    OfferState {
        offered_amount: offered_amount,
        requested_amount: requested_amount,
        min_requested_amount: min_requested_amount,
        is_active: true,
        ..offer
    }
}

/// The transfers and the event of a created offer.
pub open spec fn create_offer_effects(
    accounts: CreateOffer,
    offer: OfferState,
    offered_amount: u64,
    requested_amount: u64,
    min_requested_amount: u64,
    fees: u64,
) -> CreateOfferEffects {
    CreateOfferEffects {
        fee_transfer: TokenTransfer {
            from: accounts.bidder_ata,
            to: accounts.fee_receiver_ata,
            authority: accounts.bidder,
            amount: fees,
        },
        deposit: TokenTransfer {
            from: accounts.bidder_ata,
            to: accounts.offer_state_ata,
            authority: accounts.bidder,
            amount: offered_amount,
        },
        event: OfferCreated {
            offer_id: accounts.offer_state_account,
            bidder: accounts.bidder,
            offered_token: offer.offered_token,
            requested_token: offer.requested_token,
            offered_amount: offered_amount,
            requested_amount: requested_amount,
            min_requested_amount: min_requested_amount,
        },
    }
}

/// Makes an inactive offer live with the given amounts; `fees` is the fee on
/// `offered_amount` at the program's fee rate. The bidder pays the fee and
/// deposits `offered_amount`, and needs a balance for both.
pub fn create_offer(
    accounts: &CreateOffer,
    offer_state: &mut OfferState,
    offered_amount: u64,
    requested_amount: u64,
    min_requested_amount: u64,
    fees: u64,
) -> (result: Result<CreateOfferEffects, OTCDeskError>)
    requires
        create_offer_reaches_balance_check(*old(offer_state), requested_amount, min_requested_amount)
            ==> offered_amount + fees <= u64::MAX,
    ensures
        match result {
            Ok(effects) => {
                &&& create_offer_check(*old(offer_state), offered_amount, requested_amount,
                    min_requested_amount, fees, accounts.bidder_ata_balance) is None
                &&& *final(offer_state) == offer_after_create(*old(offer_state), offered_amount,
                    requested_amount, min_requested_amount)
                &&& effects == create_offer_effects(*accounts, *old(offer_state), offered_amount,
                    requested_amount, min_requested_amount, fees)
            },
            Err(e) => {
                &&& create_offer_check(*old(offer_state), offered_amount, requested_amount,
                    min_requested_amount, fees, accounts.bidder_ata_balance) == Some(e)
                &&& *final(offer_state) == *old(offer_state)
            },
        },
        old(offer_state).is_active ==> result == Err::<CreateOfferEffects, OTCDeskError>(
            OTCDeskError::OfferAlreadyCreated),
        !old(offer_state).is_active && min_requested_amount > requested_amount ==> result == Err::<
            CreateOfferEffects,
            OTCDeskError,
        >(OTCDeskError::TooHighAmount),
        !old(offer_state).is_active && min_requested_amount <= requested_amount && offered_amount + fees
            > accounts.bidder_ata_balance ==> result == Err::<CreateOfferEffects, OTCDeskError>(
            OTCDeskError::NotEnoughToken),
        !old(offer_state).is_active && min_requested_amount <= requested_amount && offered_amount + fees
            <= accounts.bidder_ata_balance ==> result is Ok,
        result is Ok ==> {
            &&& *final(offer_state) == (OfferState {
                offered_amount: offered_amount,
                requested_amount: requested_amount,
                min_requested_amount: min_requested_amount,
                is_active: true,
                ..*old(offer_state)
            })
            &&& result->Ok_0.fee_transfer == (TokenTransfer {
                from: accounts.bidder_ata,
                to: accounts.fee_receiver_ata,
                authority: accounts.bidder,
                amount: fees,
            })
            &&& result->Ok_0.deposit == (TokenTransfer {
                from: accounts.bidder_ata,
                to: accounts.offer_state_ata,
                authority: accounts.bidder,
                amount: offered_amount,
            })
            &&& result->Ok_0.event == (OfferCreated {
                offer_id: accounts.offer_state_account,
                bidder: accounts.bidder,
                offered_token: old(offer_state).offered_token,
                requested_token: old(offer_state).requested_token,
                offered_amount: offered_amount,
                requested_amount: requested_amount,
                min_requested_amount: min_requested_amount,
            })
        },
{
    if offer_state.is_active {
        return Err(OTCDeskError::OfferAlreadyCreated);
    }
    if min_requested_amount > requested_amount {
        return Err(OTCDeskError::TooHighAmount);
    }
    if offered_amount + fees > accounts.bidder_ata_balance {
        return Err(OTCDeskError::NotEnoughToken);
    }
    offer_state.offered_amount = offered_amount;
    offer_state.requested_amount = requested_amount;
    offer_state.min_requested_amount = min_requested_amount;
    offer_state.is_active = true;

    let fee_transfer = TokenTransfer {
        from: accounts.bidder_ata,
        to: accounts.fee_receiver_ata,
        authority: accounts.bidder,
        amount: fees,
    };
    let deposit = TokenTransfer {
        from: accounts.bidder_ata,
        to: accounts.offer_state_ata,
        authority: accounts.bidder,
        amount: offered_amount,
    };
    let event = OfferCreated {
        offer_id: accounts.offer_state_account,
        bidder: accounts.bidder,
        offered_token: offer_state.offered_token,
        requested_token: offer_state.requested_token,
        offered_amount,
        requested_amount,
        min_requested_amount,
    };
    Ok(CreateOfferEffects { fee_transfer, deposit, event })
}

// ---------------------------------------------------------------------------
// Editing an offer
// ---------------------------------------------------------------------------

/// What editing an offer reads besides the offer: the offer's account.
#[derive(Clone, Copy, Debug, PartialEq, Eq)]
pub struct EditOffer {
    pub offer_state_account: Key,
}

/// The requested amount after an edit.
pub open spec fn edited_requested_amount(offer: OfferState, input: EditOfferInput) -> u64 {
    match input.new_requested_token_amount {
        Some(amount) => amount,
        None => offer.requested_amount,
    }
}

/// The minimum amount after an edit.
pub open spec fn edited_min_requested_amount(offer: OfferState, input: EditOfferInput) -> u64 {
    match input.new_min_requested_token_amount {
        Some(amount) => amount,
        None => offer.min_requested_amount,
    }
}

/// Why an edit is refused, if it is.
pub open spec fn edit_offer_check(offer: OfferState, input: EditOfferInput) -> Option<OTCDeskError> {
    if !offer.is_active {
        Some(OTCDeskError::OfferNotActive)
    } else if input.new_requested_token_amount == Some(0u64) {
        Some(OTCDeskError::ZeroRequestedAmount)
    } else if input.new_min_requested_token_amount is Some
        && input.new_min_requested_token_amount->0 > edited_requested_amount(offer, input) {
        Some(OTCDeskError::TooHighAmount)
    } else {
        None
    }
}

/// The offer after an edit.
pub open spec fn offer_after_edit(offer: OfferState, input: EditOfferInput) -> OfferState {
    OfferState {
        requested_amount: edited_requested_amount(offer, input),
        min_requested_amount: edited_min_requested_amount(offer, input),
        ..offer
    }
}

/// The event of an edit.
pub open spec fn edit_offer_event(accounts: EditOffer, input: EditOfferInput) -> OfferUpdated {
    OfferUpdated {
        offer_id: accounts.offer_state_account,
        new_requested_token_amount: input.new_requested_token_amount,
        new_min_requested_token_amount: input.new_min_requested_token_amount,
    }
}

/// Sets a new requested amount (not zero) and a new minimum (not above the
/// requested amount) on a live offer.
pub fn edit_offer(accounts: &EditOffer, offer_state: &mut OfferState, input: EditOfferInput) -> (result:
    Result<OfferUpdated, OTCDeskError>)
    ensures
        match result {
            Ok(event) => {
                &&& edit_offer_check(*old(offer_state), input) is None
                &&& *final(offer_state) == offer_after_edit(*old(offer_state), input)
                &&& event == edit_offer_event(*accounts, input)
            },
            Err(e) => {
                &&& edit_offer_check(*old(offer_state), input) == Some(e)
                &&& *final(offer_state) == *old(offer_state)
            },
        },
        !old(offer_state).is_active ==> result == Err::<OfferUpdated, OTCDeskError>(
            OTCDeskError::OfferNotActive),
        old(offer_state).is_active && input.new_requested_token_amount == Some(0u64) ==> result == Err::<
            OfferUpdated,
            OTCDeskError,
        >(OTCDeskError::ZeroRequestedAmount),
        old(offer_state).is_active && input.new_requested_token_amount != Some(0u64) && result is Err
            ==> result == Err::<OfferUpdated, OTCDeskError>(OTCDeskError::TooHighAmount),
        ({
            let requested = match input.new_requested_token_amount {
                Some(r) => r,
                None => old(offer_state).requested_amount,
            };
            result is Ok <==> {
                &&& old(offer_state).is_active
                &&& input.new_requested_token_amount != Some(0u64)
                &&& (input.new_min_requested_token_amount matches Some(m) ==> m <= requested)
            }
        }),
        result is Ok ==> {
            &&& (input.new_requested_token_amount matches Some(r) ==> final(offer_state).requested_amount
                == r && r > 0)
            &&& (input.new_requested_token_amount is None ==> final(offer_state).requested_amount == old(offer_state).requested_amount)
            &&& (input.new_min_requested_token_amount matches Some(m) ==> final(offer_state).min_requested_amount == m && m <= final(offer_state).requested_amount)
            &&& (input.new_min_requested_token_amount is None ==> final(offer_state).min_requested_amount
                == old(offer_state).min_requested_amount)
            &&& *final(offer_state) == (OfferState {
                requested_amount: final(offer_state).requested_amount,
                min_requested_amount: final(offer_state).min_requested_amount,
                ..*old(offer_state)
            })
            &&& result->Ok_0 == (OfferUpdated {
                offer_id: accounts.offer_state_account,
                new_requested_token_amount: input.new_requested_token_amount,
                new_min_requested_token_amount: input.new_min_requested_token_amount,
            })
        },
{
    if !offer_state.is_active {
        return Err(OTCDeskError::OfferNotActive);
    }
    let mut requested_amount = offer_state.requested_amount;
    if let Some(amount) = input.new_requested_token_amount {
        if amount == 0 {
            return Err(OTCDeskError::ZeroRequestedAmount);
        }
        requested_amount = amount;
    }
    let mut min_requested_amount = offer_state.min_requested_amount;
    if let Some(amount) = input.new_min_requested_token_amount {
        if amount > requested_amount {
            return Err(OTCDeskError::TooHighAmount);
        }
        min_requested_amount = amount;
    }
    offer_state.requested_amount = requested_amount;
    offer_state.min_requested_amount = min_requested_amount;
    Ok(
        OfferUpdated {
            offer_id: accounts.offer_state_account,
            new_requested_token_amount: input.new_requested_token_amount,
            new_min_requested_token_amount: input.new_min_requested_token_amount,
        },
    )
}

// ---------------------------------------------------------------------------
// Accepting an offer
// ---------------------------------------------------------------------------

/// What accepting an offer reads besides the offer: the seller, their two
/// token accounts and the balance of the one that pays, the bidder's account
/// for the requested token, the offer's account and token account, and the
/// fee receiver's token account.
#[derive(Clone, Copy, Debug, PartialEq, Eq)]
pub struct AcceptOffer {
    pub seller: Key,
    pub seller_offered_token_ata: Key,
    pub seller_requested_token_ata: Key,
    pub seller_requested_token_balance: u64,
    pub bidder_requested_token_ata: Key,
    pub offer_state_account: Key,
    pub offer_state_ata: Key,
    pub fee_receiver_ata: Key,
}

/// What an accepted offer asks for: the seller's fee, the seller's payment to
/// the bidder, the release of the bought share of offered tokens from the
/// offer's token account to the seller (signed by the offer's account), and
/// the events.
#[derive(Clone, Copy, Debug, PartialEq, Eq)]
pub struct AcceptOfferEffects {
    pub fee_transfer: TokenTransfer,
    pub payment: TokenTransfer,
    pub release: TokenTransfer,
    pub accepted: OfferAccepted,
    pub completed: Option<OfferCompleted>,
}

/// Whether accepting gets as far as splitting the offered amount: the seller
/// is not the bidder, the offer is live, and the amount lies within its
/// bounds.
pub open spec fn accept_offer_reaches_split(offer: OfferState, seller: Key, amount: u64) -> bool {
    &&& seller@ != offer.bidder@
    &&& offer.is_active
    &&& amount <= offer.requested_amount
    &&& amount >= offer.min_requested_amount
}

/// Why accepting is refused, if it is: the seller must pay the amount and
/// the fee out of `seller_balance`.
pub open spec fn accept_offer_check(
    offer: OfferState,
    seller: Key,
    amount: u64,
    fees: u64,
    seller_balance: u64,
) -> Option<OTCDeskError> {
    if seller@ == offer.bidder@ {
        Some(OTCDeskError::SelfOfferAccept)
    } else if !offer.is_active {
        Some(OTCDeskError::OfferNotActive)
    } else if amount > offer.requested_amount {
        Some(OTCDeskError::TooHighAmount)
    } else if amount < offer.min_requested_amount {
        Some(OTCDeskError::TooLowAmount)
    } else if amount + fees > seller_balance {
        Some(OTCDeskError::NotEnoughToken)
    } else {
        None
    }
}

/// The part of the offered amount that a payment of `amount` buys: the
/// offered amount in proportion to the payment, rounded down.
pub open spec fn offered_share(offer: OfferState, amount: u64) -> int {
    (offer.offered_amount * amount) / (offer.requested_amount as int)
}

/// Whether a payment of `amount` settles the offer: nothing is left to
/// request and the minimum is above what is left.
pub open spec fn accept_completes(offer: OfferState, amount: u64) -> bool {
    &&& offer.requested_amount - amount == 0
    &&& offer.min_requested_amount > offer.requested_amount - amount
}

/// The offer after a payment of `amount`: the share and the payment come off
/// the two amounts; a settled offer is reset; an offer whose minimum is not
/// above what is left gets the rest as its new minimum.
pub open spec fn offer_after_accept(offer: OfferState, amount: u64) -> OfferState {
    let offered = (offer.offered_amount - offered_share(offer, amount)) as u64;
    let requested = (offer.requested_amount - amount) as u64;
    if offer.min_requested_amount > requested {
        if requested == 0 {
            reset(offer)
        } else {
            OfferState { offered_amount: offered, requested_amount: requested, ..offer }
        }
    } else {
        OfferState {
            offered_amount: offered,
            requested_amount: requested,
            min_requested_amount: requested,
            ..offer
        }
    }
}

/// The transfers and events of an accepted offer.
pub open spec fn accept_offer_effects(accounts: AcceptOffer, offer: OfferState, amount: u64, fees: u64) -> AcceptOfferEffects {
    AcceptOfferEffects {
        fee_transfer: TokenTransfer {
            from: accounts.seller_requested_token_ata,
            to: accounts.fee_receiver_ata,
            authority: accounts.seller,
            amount: fees,
        },
        payment: TokenTransfer {
            from: accounts.seller_requested_token_ata,
            to: accounts.bidder_requested_token_ata,
            authority: accounts.seller,
            amount: amount,
        },
        release: TokenTransfer {
            from: accounts.offer_state_ata,
            to: accounts.seller_offered_token_ata,
            authority: accounts.offer_state_account,
            amount: offered_share(offer, amount) as u64,
        },
        accepted: OfferAccepted { offer_id: accounts.offer_state_account, amount: amount },
        completed: if accept_completes(offer, amount) {
            Some(OfferCompleted { offer_id: accounts.offer_state_account })
        } else {
            None
        },
    }
}

/// A payment of at most the requested amount buys at most the offered
/// amount, and the whole requested amount buys all of it.
pub proof fn lemma_share_within_offer(offered_amount: u64, amount: u64, requested_amount: u64)
    requires
        requested_amount > 0,
        amount <= requested_amount,
    ensures
        0 <= (offered_amount * amount) / (requested_amount as int) <= offered_amount,
        amount == requested_amount ==> (offered_amount * amount) / (requested_amount as int)
            == offered_amount,
{
    assert(offered_amount * amount <= offered_amount * requested_amount) by (nonlinear_arith)
        requires
            amount <= requested_amount,
    ;
    assert(0 <= (offered_amount * amount) / (requested_amount as int) <= offered_amount) by (nonlinear_arith)
        requires
            requested_amount > 0,
            0 <= offered_amount * amount <= offered_amount * requested_amount,
    ;
    if amount == requested_amount {
        assert((offered_amount * requested_amount) / (requested_amount as int) == offered_amount)
            by (nonlinear_arith)
            requires
                requested_amount > 0,
        ;
    }
}

/// The offered amount times the payment, divided by the requested amount
/// and rounded down; the product is taken in 128 bits, so it is never cut.
fn split_offered(offered_amount: u64, amount: u64, requested_amount: u64) -> (share: u64)
    requires
        requested_amount > 0,
        amount <= requested_amount,
    ensures
        share == (offered_amount * amount) / (requested_amount as int),
        share <= offered_amount,
{
    assert((offered_amount as u128) * (amount as u128) <= 0xffff_ffff_ffff_fffe_0000_0000_0000_0001)
        by (nonlinear_arith)
        requires
            offered_amount <= 0xffff_ffff_ffff_ffff,
            amount <= 0xffff_ffff_ffff_ffff,
    ;
    let product: u128 = (offered_amount as u128) * (amount as u128);
    proof {
        lemma_share_within_offer(offered_amount, amount, requested_amount);
    }
    (product / (requested_amount as u128)) as u64
}

/// Pays `amount` of the requested token for a share of a live offer;
/// `fees` is the fee on `amount` at the program's fee rate, paid by the
/// seller besides the amount.
pub fn accept_offer(
    accounts: &AcceptOffer,
    offer_state: &mut OfferState,
    amount: u64,
    fees: u64,
) -> (result: Result<AcceptOfferEffects, OTCDeskError>)
    requires
        accept_offer_reaches_split(*old(offer_state), accounts.seller, amount) ==> {
            &&& old(offer_state).requested_amount > 0
            &&& amount + fees <= u64::MAX
        },
    ensures
        match result {
            Ok(effects) => {
                &&& accept_offer_check(*old(offer_state), accounts.seller, amount, fees,
                    accounts.seller_requested_token_balance) is None
                &&& *final(offer_state) == offer_after_accept(*old(offer_state), amount)
                &&& effects == accept_offer_effects(*accounts, *old(offer_state), amount, fees)
            },
            Err(e) => {
                &&& accept_offer_check(*old(offer_state), accounts.seller, amount, fees,
                    accounts.seller_requested_token_balance) == Some(e)
                &&& *final(offer_state) == *old(offer_state)
            },
        },
        accounts.seller@ == old(offer_state).bidder@ ==> result == Err::<AcceptOfferEffects, OTCDeskError>(
            OTCDeskError::SelfOfferAccept),
        accounts.seller@ != old(offer_state).bidder@ && !old(offer_state).is_active ==> result == Err::<
            AcceptOfferEffects,
            OTCDeskError,
        >(OTCDeskError::OfferNotActive),
        accounts.seller@ != old(offer_state).bidder@ && old(offer_state).is_active && amount > old(offer_state).requested_amount ==> result == Err::<AcceptOfferEffects, OTCDeskError>(OTCDeskError::TooHighAmount),
        accounts.seller@ != old(offer_state).bidder@ && old(offer_state).is_active && amount <= old(offer_state).requested_amount && amount < old(offer_state).min_requested_amount ==> result == Err::<
            AcceptOfferEffects,
            OTCDeskError,
        >(OTCDeskError::TooLowAmount),
        accept_offer_reaches_split(*old(offer_state), accounts.seller, amount) && amount + fees
            > accounts.seller_requested_token_balance ==> result == Err::<AcceptOfferEffects, OTCDeskError>(
            OTCDeskError::NotEnoughToken),
        accept_offer_reaches_split(*old(offer_state), accounts.seller, amount) && amount + fees
            <= accounts.seller_requested_token_balance ==> result is Ok,
        result is Ok ==> {
            let share = (old(offer_state).offered_amount * amount) / (old(offer_state).requested_amount as int);
            let rest = old(offer_state).requested_amount - amount;
            &&& result->Ok_0.fee_transfer == (TokenTransfer {
                from: accounts.seller_requested_token_ata,
                to: accounts.fee_receiver_ata,
                authority: accounts.seller,
                amount: fees,
            })
            &&& result->Ok_0.payment == (TokenTransfer {
                from: accounts.seller_requested_token_ata,
                to: accounts.bidder_requested_token_ata,
                authority: accounts.seller,
                amount: amount,
            })
            &&& result->Ok_0.release.from == accounts.offer_state_ata
            &&& result->Ok_0.release.to == accounts.seller_offered_token_ata
            &&& result->Ok_0.release.authority == accounts.offer_state_account
            &&& result->Ok_0.release.amount == share
            &&& result->Ok_0.accepted == (OfferAccepted { offer_id: accounts.offer_state_account, amount: amount })
            &&& (rest == 0 && old(offer_state).min_requested_amount > 0) ==> {
                &&& result->Ok_0.completed == Some(OfferCompleted { offer_id: accounts.offer_state_account })
                &&& *final(offer_state) == (OfferState {
                    offered_amount: 0,
                    requested_amount: 0,
                    min_requested_amount: 0,
                    is_active: false,
                    ..*old(offer_state)
                })
            }
            &&& !(rest == 0 && old(offer_state).min_requested_amount > 0) ==> {
                &&& result->Ok_0.completed is None
                &&& *final(offer_state) == (OfferState {
                    offered_amount: (old(offer_state).offered_amount - share) as u64,
                    requested_amount: rest as u64,
                    min_requested_amount: if old(offer_state).min_requested_amount > rest {
                        old(offer_state).min_requested_amount
                    } else {
                        rest as u64
                    },
                    ..*old(offer_state)
                })
            }
        },
{
    if accounts.seller.equals(&offer_state.bidder) {
        return Err(OTCDeskError::SelfOfferAccept);
    }
    if !offer_state.is_active {
        return Err(OTCDeskError::OfferNotActive);
    }
    if amount > offer_state.requested_amount {
        return Err(OTCDeskError::TooHighAmount);
    }
    if amount < offer_state.min_requested_amount {
        return Err(OTCDeskError::TooLowAmount);
    }
    let partial_offered_amount = split_offered(offer_state.offered_amount, amount, offer_state.requested_amount);
    if amount + fees > accounts.seller_requested_token_balance {
        return Err(OTCDeskError::NotEnoughToken);
    }

    let fee_transfer = TokenTransfer {
        from: accounts.seller_requested_token_ata,
        to: accounts.fee_receiver_ata,
        authority: accounts.seller,
        amount: fees,
    };
    let payment = TokenTransfer {
        from: accounts.seller_requested_token_ata,
        to: accounts.bidder_requested_token_ata,
        authority: accounts.seller,
        amount: amount,
    };
    let release = TokenTransfer {
        from: accounts.offer_state_ata,
        to: accounts.seller_offered_token_ata,
        authority: accounts.offer_state_account,
        amount: partial_offered_amount,
    };

    offer_state.offered_amount = offer_state.offered_amount - partial_offered_amount;
    offer_state.requested_amount = offer_state.requested_amount - amount;

    let accepted = OfferAccepted { offer_id: accounts.offer_state_account, amount: amount };
    let mut completed: Option<OfferCompleted> = None;
    if offer_state.min_requested_amount > offer_state.requested_amount {
        if offer_state.requested_amount == 0 {
            completed = Some(OfferCompleted { offer_id: accounts.offer_state_account });
            offer_state.re_init();
        }
    } else {
        offer_state.min_requested_amount = offer_state.requested_amount;
    }
    Ok(AcceptOfferEffects { fee_transfer, payment, release, accepted, completed })
}

// ---------------------------------------------------------------------------
// Setting up an offer or a listing
// ---------------------------------------------------------------------------

/// What setting up an offer reads: the bidder, the two tokens, and the owners
/// of the two accounts that mark the tokens as allowed.
#[derive(Clone, Copy, Debug, PartialEq, Eq)]
pub struct InitOfferState {
    pub bidder: Key,
    pub offered_token: Key,
    pub requested_token: Key,
    pub offered_token_allowed_checker_owner: Key,
    pub requested_token_allowed_checker_owner: Key,
}

/// Why setting up an offer is refused, if it is: both tokens must be marked
/// as allowed by accounts that this program owns.
pub open spec fn init_offer_state_check(accounts: InitOfferState, program_id: Key) -> Option<OTCDeskError> {
    if accounts.offered_token_allowed_checker_owner@ != program_id@
        || accounts.requested_token_allowed_checker_owner@ != program_id@ {
        Some(OTCDeskError::TokenNotAllowed)
    } else {
        None
    }
}

/// The offer once set up.
pub open spec fn offer_after_init(offer: OfferState, accounts: InitOfferState, init_time: i64) -> OfferState {
    OfferState {
        bidder: accounts.bidder,
        offered_token: accounts.offered_token,
        requested_token: accounts.requested_token,
        init_time: init_time,
        ..offer
    }
}

/// Records the bidder, the tokens and the creation time of a new offer,
/// when both tokens are allowed under the program `program_id`.
pub fn init_offer_state(
    accounts: &InitOfferState,
    state: &mut OfferState,
    program_id: &Key,
    init_time: i64,
) -> (result: Result<(), OTCDeskError>)
    ensures
        match result {
            Ok(()) => {
                &&& init_offer_state_check(*accounts, *program_id) is None
                &&& *final(state) == offer_after_init(*old(state), *accounts, init_time)
            },
            Err(e) => {
                &&& init_offer_state_check(*accounts, *program_id) == Some(e)
                &&& *final(state) == *old(state)
            },
        },
        result is Ok <==> (accounts.offered_token_allowed_checker_owner@ == program_id@
            && accounts.requested_token_allowed_checker_owner@ == program_id@),
        result is Err ==> result == Err::<(), OTCDeskError>(OTCDeskError::TokenNotAllowed),
        result is Ok ==> *final(state) == (OfferState {
            bidder: accounts.bidder,
            offered_token: accounts.offered_token,
            requested_token: accounts.requested_token,
            init_time: init_time,
            ..*old(state)
        }),
{
    if !accounts.offered_token_allowed_checker_owner.equals(program_id)
        || !accounts.requested_token_allowed_checker_owner.equals(program_id) {
        return Err(OTCDeskError::TokenNotAllowed);
    }
    state.bidder = accounts.bidder;
    state.offered_token = accounts.offered_token;
    state.requested_token = accounts.requested_token;
    state.init_time = init_time;
    Ok(())
}

/// What creating a listing reads: the seller and the two tokens.
#[derive(Clone, Copy, Debug, PartialEq, Eq)]
pub struct CreateListing {
    pub seller: Key,
    pub offered_token: Key,
    pub requested_token: Key,
}

/// The offer once listed by a seller.
pub open spec fn offer_after_listing(offer: OfferState, accounts: CreateListing, init_time: i64) -> OfferState {
    OfferState {
        seller: accounts.seller,
        offered_token: accounts.offered_token,
        requested_token: accounts.requested_token,
        init_time: init_time,
        ..offer
    }
}

/// Records the seller, the tokens and the creation time of a listing.
pub fn create_listing(accounts: &CreateListing, state: &mut OfferState, init_time: i64) -> (result: Result<
    (),
    OTCDeskError,
>)
    ensures
        result is Ok,
        *final(state) == offer_after_listing(*old(state), *accounts, init_time),
        *final(state) == (OfferState {
            seller: accounts.seller,
            offered_token: accounts.offered_token,
            requested_token: accounts.requested_token,
            init_time: init_time,
            ..*old(state)
        }),
{
    state.seller = accounts.seller;
    state.offered_token = accounts.offered_token;
    state.requested_token = accounts.requested_token;
    state.init_time = init_time;
    Ok(())
}

} // verus!
