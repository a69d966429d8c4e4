use escrow::error::OTCDeskError;
use escrow::events::OfferAccepted;
use escrow::events::OfferCompleted;
use escrow::events::OfferCreated;
use escrow::events::OfferUpdated;
use escrow::instructions::accept_offer;
use escrow::instructions::create_listing;
use escrow::instructions::create_offer;
use escrow::instructions::edit_offer;
use escrow::instructions::init_offer_state;
use escrow::instructions::AcceptOffer;
use escrow::instructions::CreateListing;
use escrow::instructions::CreateOffer;
use escrow::instructions::EditOffer;
use escrow::instructions::InitOfferState;
use escrow::instructions::TokenTransfer;
use escrow::key::Key;
use escrow::main_state::MainState;
use escrow::main_state::MainStateInput;
use escrow::offer::EditOfferInput;
use escrow::offer::OfferState;

fn key(b: u8) -> Key {
    Key { bytes: [b; 32] }
}

const BIDDER: u8 = 1;
const SELLER: u8 = 2;
const OFFERED_TOKEN: u8 = 3;
const REQUESTED_TOKEN: u8 = 4;
const OFFER_ACCOUNT: u8 = 5;
const OFFER_ATA: u8 = 6;
const FEE_ATA: u8 = 7;
const BIDDER_ATA: u8 = 8;
const SELLER_OFFERED_ATA: u8 = 9;
const SELLER_REQUESTED_ATA: u8 = 10;
const BIDDER_REQUESTED_ATA: u8 = 11;

fn fresh_offer() -> OfferState {
    OfferState {
        bidder: key(BIDDER),
        seller: key(0),
        offered_token: key(OFFERED_TOKEN),
        requested_token: key(REQUESTED_TOKEN),
        offered_amount: 0,
        requested_amount: 0,
        min_requested_amount: 0,
        init_time: 1_700_000_000,
        is_active: false,
    }
}

fn live_offer(offered: u64, requested: u64, min: u64) -> OfferState {
    OfferState {
        offered_amount: offered,
        requested_amount: requested,
        min_requested_amount: min,
        is_active: true,
        ..fresh_offer()
    }
}

fn create_accounts(balance: u64) -> CreateOffer {
    CreateOffer {
        bidder: key(BIDDER),
        bidder_ata: key(BIDDER_ATA),
        bidder_ata_balance: balance,
        offer_state_account: key(OFFER_ACCOUNT),
        offer_state_ata: key(OFFER_ATA),
        fee_receiver_ata: key(FEE_ATA),
    }
}

fn accept_accounts(seller: u8) -> AcceptOffer {
    accept_accounts_with(seller, 10)
}

fn accept_accounts_with(seller: u8, balance: u64) -> AcceptOffer {
    AcceptOffer {
        seller: key(seller),
        seller_offered_token_ata: key(SELLER_OFFERED_ATA),
        seller_requested_token_ata: key(SELLER_REQUESTED_ATA),
        seller_requested_token_balance: balance,
        bidder_requested_token_ata: key(BIDDER_REQUESTED_ATA),
        offer_state_account: key(OFFER_ACCOUNT),
        offer_state_ata: key(OFFER_ATA),
        fee_receiver_ata: key(FEE_ATA),
    }
}

#[test]
fn create_offer_makes_the_offer_live() {
    let mut offer = fresh_offer();
    let effects = create_offer(&create_accounts(105), &mut offer, 100, 50, 10, 5).unwrap();
    assert_eq!(offer, live_offer(100, 50, 10));
    assert_eq!(
        effects.fee_transfer,
        TokenTransfer { from: key(BIDDER_ATA), to: key(FEE_ATA), authority: key(BIDDER), amount: 5 }
    );
    assert_eq!(
        effects.deposit,
        TokenTransfer { from: key(BIDDER_ATA), to: key(OFFER_ATA), authority: key(BIDDER), amount: 100 }
    );
    assert_eq!(
        effects.event,
        OfferCreated {
            offer_id: key(OFFER_ACCOUNT),
            bidder: key(BIDDER),
            offered_token: key(OFFERED_TOKEN),
            requested_token: key(REQUESTED_TOKEN),
            offered_amount: 100,
            requested_amount: 50,
            min_requested_amount: 10,
        }
    );
}

#[test]
fn create_offer_refuses_a_live_offer() {
    let mut offer = live_offer(1, 2, 1);
    let before = offer;
    assert_eq!(
        create_offer(&create_accounts(1000), &mut offer, 100, 50, 10, 5).unwrap_err(),
        OTCDeskError::OfferAlreadyCreated
    );
    assert_eq!(offer, before);
}

#[test]
fn create_offer_refuses_a_minimum_above_the_request() {
    let mut offer = fresh_offer();
    assert_eq!(
        create_offer(&create_accounts(1000), &mut offer, 100, 50, 51, 5).unwrap_err(),
        OTCDeskError::TooHighAmount
    );
    assert_eq!(offer, fresh_offer());
}

#[test]
fn create_offer_refuses_a_short_balance() {
    let mut offer = fresh_offer();
    assert_eq!(
        create_offer(&create_accounts(104), &mut offer, 100, 50, 10, 5).unwrap_err(),
        OTCDeskError::NotEnoughToken
    );
    assert_eq!(offer, fresh_offer());
}

#[test]
fn create_offer_accepts_minimum_equal_to_request() {
    let mut offer = fresh_offer();
    assert!(create_offer(&create_accounts(100), &mut offer, 100, 50, 50, 0).is_ok());
    assert_eq!(offer, live_offer(100, 50, 50));
}

fn edit_input(requested: Option<u64>, min: Option<u64>) -> EditOfferInput {
    EditOfferInput { new_requested_token_amount: requested, new_min_requested_token_amount: min }
}

#[test]
fn edit_offer_sets_both_amounts() {
    let mut offer = live_offer(100, 50, 10);
    let accounts = EditOffer { offer_state_account: key(OFFER_ACCOUNT) };
    let event = edit_offer(&accounts, &mut offer, edit_input(Some(80), Some(20))).unwrap();
    assert_eq!(offer, live_offer(100, 80, 20));
    assert_eq!(
        event,
        OfferUpdated {
            offer_id: key(OFFER_ACCOUNT),
            new_requested_token_amount: Some(80),
            new_min_requested_token_amount: Some(20),
        }
    );
}

#[test]
fn edit_offer_with_nothing_keeps_the_amounts() {
    let mut offer = live_offer(100, 50, 10);
    let accounts = EditOffer { offer_state_account: key(OFFER_ACCOUNT) };
    assert!(edit_offer(&accounts, &mut offer, EditOfferInput::default()).is_ok());
    assert_eq!(offer, live_offer(100, 50, 10));
}

#[test]
fn edit_offer_refuses_an_inactive_offer() {
    let mut offer = fresh_offer();
    let accounts = EditOffer { offer_state_account: key(OFFER_ACCOUNT) };
    assert_eq!(
        edit_offer(&accounts, &mut offer, edit_input(Some(5), None)).unwrap_err(),
        OTCDeskError::OfferNotActive
    );
    assert_eq!(offer, fresh_offer());
}

#[test]
fn edit_offer_refuses_a_zero_request() {
    let mut offer = live_offer(100, 50, 10);
    let accounts = EditOffer { offer_state_account: key(OFFER_ACCOUNT) };
    assert_eq!(
        edit_offer(&accounts, &mut offer, edit_input(Some(0), Some(0))).unwrap_err(),
        OTCDeskError::ZeroRequestedAmount
    );
    assert_eq!(offer, live_offer(100, 50, 10));
}

#[test]
fn edit_offer_refuses_a_minimum_above_the_new_request() {
    let mut offer = live_offer(100, 50, 10);
    let accounts = EditOffer { offer_state_account: key(OFFER_ACCOUNT) };
    assert_eq!(
        edit_offer(&accounts, &mut offer, edit_input(Some(30), Some(31))).unwrap_err(),
        OTCDeskError::TooHighAmount
    );
    assert_eq!(offer, live_offer(100, 50, 10));
}

#[test]
fn edit_offer_refuses_a_minimum_above_the_old_request() {
    let mut offer = live_offer(100, 50, 10);
    let accounts = EditOffer { offer_state_account: key(OFFER_ACCOUNT) };
    assert_eq!(
        edit_offer(&accounts, &mut offer, edit_input(None, Some(51))).unwrap_err(),
        OTCDeskError::TooHighAmount
    );
    assert_eq!(offer, live_offer(100, 50, 10));
}

#[test]
fn edit_offer_may_lower_the_request_below_the_old_minimum() {
    let mut offer = live_offer(100, 50, 40);
    let accounts = EditOffer { offer_state_account: key(OFFER_ACCOUNT) };
    assert!(edit_offer(&accounts, &mut offer, edit_input(Some(30), None)).is_ok());
    assert_eq!(offer, live_offer(100, 30, 40));
}

#[test]
fn accept_offer_refuses_the_bidder() {
    let mut offer = live_offer(10, 4, 0);
    assert_eq!(
        accept_offer(&accept_accounts(BIDDER), &mut offer, 1, 0).unwrap_err(),
        OTCDeskError::SelfOfferAccept
    );
    assert_eq!(offer, live_offer(10, 4, 0));
}

#[test]
fn accept_offer_refuses_an_inactive_offer() {
    let mut offer = fresh_offer();
    assert_eq!(
        accept_offer(&accept_accounts(SELLER), &mut offer, 0, 0).unwrap_err(),
        OTCDeskError::OfferNotActive
    );
    assert_eq!(offer, fresh_offer());
}

#[test]
fn accept_offer_refuses_too_much() {
    let mut offer = live_offer(10, 4, 0);
    assert_eq!(
        accept_offer(&accept_accounts(SELLER), &mut offer, 5, 0).unwrap_err(),
        OTCDeskError::TooHighAmount
    );
    assert_eq!(offer, live_offer(10, 4, 0));
}

#[test]
fn accept_offer_refuses_too_little() {
    let mut offer = live_offer(10, 4, 2);
    assert_eq!(
        accept_offer(&accept_accounts(SELLER), &mut offer, 1, 0).unwrap_err(),
        OTCDeskError::TooLowAmount
    );
    assert_eq!(offer, live_offer(10, 4, 2));
}

#[test]
fn accept_offer_refuses_a_short_balance() {
    let mut offer = live_offer(100, 10, 2);
    assert_eq!(
        accept_offer(&accept_accounts_with(SELLER, 10), &mut offer, 10, 1).unwrap_err(),
        OTCDeskError::NotEnoughToken
    );
    assert_eq!(
        accept_offer(&accept_accounts_with(SELLER, 3), &mut offer, 4, 0).unwrap_err(),
        OTCDeskError::NotEnoughToken
    );
    assert_eq!(offer, live_offer(100, 10, 2));
}

#[test]
fn accept_offer_takes_a_part_payment() {
    let mut offer = live_offer(100, 10, 2);
    let effects = accept_offer(&accept_accounts_with(SELLER, 10), &mut offer, 4, 0).unwrap();
    // 100 * 4 / 10 = 40 offered tokens are bought; the rest becomes the minimum.
    assert_eq!(offer, live_offer(60, 6, 6));
    assert_eq!(
        effects.fee_transfer,
        TokenTransfer {
            from: key(SELLER_REQUESTED_ATA),
            to: key(FEE_ATA),
            authority: key(SELLER),
            amount: 0,
        }
    );
    assert_eq!(
        effects.payment,
        TokenTransfer {
            from: key(SELLER_REQUESTED_ATA),
            to: key(BIDDER_REQUESTED_ATA),
            authority: key(SELLER),
            amount: 4,
        }
    );
    assert_eq!(
        effects.release,
        TokenTransfer {
            from: key(OFFER_ATA),
            to: key(SELLER_OFFERED_ATA),
            authority: key(OFFER_ACCOUNT),
            amount: 40,
        }
    );
    assert_eq!(effects.accepted, OfferAccepted { offer_id: key(OFFER_ACCOUNT), amount: 4 });
    assert_eq!(effects.completed, None);
}

#[test]
fn accept_offer_pays_the_fee_from_the_same_balance() {
    let mut offer = live_offer(100, 10, 2);
    let effects = accept_offer(&accept_accounts_with(SELLER, 5), &mut offer, 4, 1).unwrap();
    assert_eq!(effects.fee_transfer.amount, 1);
    assert_eq!(effects.payment.amount, 4);
    assert_eq!(offer, live_offer(60, 6, 6));
}

#[test]
fn accept_offer_settles_the_whole_request() {
    let mut offer = live_offer(100, 10, 2);
    let effects = accept_offer(&accept_accounts_with(SELLER, 10), &mut offer, 10, 0).unwrap();
    assert_eq!(offer, fresh_offer());
    assert_eq!(effects.release.amount, 100);
    assert_eq!(effects.completed, Some(OfferCompleted { offer_id: key(OFFER_ACCOUNT) }));
}

#[test]
fn accept_offer_splits_a_large_offer_without_cutting() {
    let mut offer = live_offer(1u64 << 63, 4, 1);
    let effects = accept_offer(&accept_accounts_with(SELLER, 10), &mut offer, 2, 0).unwrap();
    assert_eq!(offer, live_offer(1u64 << 62, 2, 2));
    assert_eq!(effects.release.amount, 1u64 << 62);
}

#[test]
fn accept_offer_rounds_the_share_down() {
    let mut offer = live_offer(10, 4, 0);
    let effects = accept_offer(&accept_accounts(SELLER), &mut offer, 1, 0).unwrap();
    assert_eq!(offer, live_offer(8, 3, 3));
    assert_eq!(effects.release.amount, 2);
}

#[test]
fn accept_offer_leaves_a_drained_offer_live_when_minimum_is_zero() {
    let mut offer = live_offer(10, 1, 0);
    let effects = accept_offer(&accept_accounts(SELLER), &mut offer, 1, 0).unwrap();
    assert_eq!(offer, live_offer(0, 0, 0));
    assert_eq!(effects.release.amount, 10);
    assert_eq!(effects.completed, None);
}

#[test]
fn accept_offer_with_nothing_paid_releases_nothing() {
    let mut offer = live_offer(10, 4, 0);
    let effects = accept_offer(&accept_accounts_with(SELLER, 1), &mut offer, 0, 1).unwrap();
    assert_eq!(offer, live_offer(10, 4, 4));
    assert_eq!(effects.fee_transfer.amount, 1);
    assert_eq!(effects.payment.amount, 0);
    assert_eq!(effects.release.amount, 0);
}

#[test]
fn accept_offer_keeps_a_minimum_above_the_rest() {
    let mut offer = live_offer(10, 10, 2);
    let effects = accept_offer(&accept_accounts(SELLER), &mut offer, 9, 0).unwrap();
    assert_eq!(offer, live_offer(1, 1, 2));
    assert_eq!(effects.release.amount, 9);
    assert_eq!(effects.completed, None);
}

#[test]
fn update_main_state_owner_keeps_the_fees() {
    let mut state = MainState { owner: key(1), fee_receiver: key(2), fee_rate: 3 };
    escrow::main_state::update_main_state_owner(&mut state, key(9));
    assert_eq!(state, MainState { owner: key(9), fee_receiver: key(2), fee_rate: 3 });
}

fn init_accounts(offered_owner: u8, requested_owner: u8) -> InitOfferState {
    InitOfferState {
        bidder: key(BIDDER),
        offered_token: key(OFFERED_TOKEN),
        requested_token: key(REQUESTED_TOKEN),
        offered_token_allowed_checker_owner: key(offered_owner),
        requested_token_allowed_checker_owner: key(requested_owner),
    }
}

fn blank_offer() -> OfferState {
    OfferState {
        bidder: key(0),
        seller: key(0),
        offered_token: key(0),
        requested_token: key(0),
        offered_amount: 0,
        requested_amount: 0,
        min_requested_amount: 0,
        init_time: 0,
        is_active: false,
    }
}

#[test]
fn init_offer_state_records_the_offer() {
    let program = key(99);
    let mut offer = blank_offer();
    assert!(init_offer_state(&init_accounts(99, 99), &mut offer, &program, 1_700_000_000).is_ok());
    assert_eq!(offer, fresh_offer());
}

#[test]
fn init_offer_state_refuses_tokens_not_allowed() {
    let program = key(99);
    let mut offer = blank_offer();
    assert_eq!(
        init_offer_state(&init_accounts(98, 99), &mut offer, &program, 7).unwrap_err(),
        OTCDeskError::TokenNotAllowed
    );
    assert_eq!(
        init_offer_state(&init_accounts(99, 98), &mut offer, &program, 7).unwrap_err(),
        OTCDeskError::TokenNotAllowed
    );
    assert_eq!(offer, blank_offer());
}

#[test]
fn create_listing_records_the_seller() {
    let mut offer = blank_offer();
    let accounts = CreateListing {
        seller: key(SELLER),
        offered_token: key(OFFERED_TOKEN),
        requested_token: key(REQUESTED_TOKEN),
    };
    assert!(create_listing(&accounts, &mut offer, -5).is_ok());
    assert_eq!(
        offer,
        OfferState {
            seller: key(SELLER),
            offered_token: key(OFFERED_TOKEN),
            requested_token: key(REQUESTED_TOKEN),
            init_time: -5,
            ..blank_offer()
        }
    );
}

#[test]
fn re_init_clears_the_amounts() {
    let mut offer = live_offer(10, 4, 2);
    offer.re_init();
    assert_eq!(offer, fresh_offer());
}

#[test]
fn set_value_replaces_the_main_state() {
    let mut state = MainState { owner: key(1), fee_receiver: key(2), fee_rate: 3 };
    let input = MainStateInput { owner: key(4), fee_receiver: key(5), fee_rate: 1_000_000 };
    input.set_value(&mut state);
    assert_eq!(state, MainState { owner: key(4), fee_receiver: key(5), fee_rate: 1_000_000 });
}

#[test]
fn key_equality_compares_bytes() {
    let mut other = key(1);
    assert!(key(1).equals(&other));
    other.bytes[31] = 2;
    assert!(!key(1).equals(&other));
    assert_eq!(key(7).to_vec(), vec![7u8; 32]);
}
