//! Seeds, program ids and account sizes of the escrow program.

use vstd::prelude::*;
use vstd::string::StringSliceAdditionalSpecFns;

verus! {

pub const PREFIX: &'static str = "auction_house";

pub const FEE_PAYER: &'static str = "fee_payer";

pub const TREASURY: &'static str = "treasury";

pub const SIGNER: &'static str = "signer";

/// Seed of every offer account address.
pub const SEED_OFFER: &'static str = "offer";

/// Seed of the main state account address.
pub const SEED_MAIN_STATE: &'static str = "main_state";

/// Seed of the accounts that mark a token as allowed.
pub const SEED_ALLOWED_TOKEN: &'static str = "allowed_token";

/// Seed of a token's metadata account address under the metadata program.
pub const SEED_METADATA: &'static str = "metadata";

/// Address of this escrow program, in base58.
pub const PROGRAM_ID: &'static str = "8poGjoAGyUVK6Ups3yaUBxFxXUYXmhyBo92qxQRkyUtV";

/// Address of the token metadata program, in base58.
pub const METAPLEX_PROGRAM_ID: &'static str = "metaqbxxUerdq28cj1RbAWkYQm3ybzjb6a8bt518x1s";

pub const TRADE_STATE_SIZE: usize = 1;

pub const MAX_NUM_SCOPES: usize = 7;

pub const FEE: u64 = 100_000;

/// Key, fee payer, fee withdrawal destination, authority, creator, bump,
/// fee payer bump, seller fee basis points, requires sign off, escrow payment
/// bump, the authority scope flags, and padding.
pub const ESCROW_HOUSE_SIZE: usize = 8 + 32 + 32 + 32 + 32 + 1 + 1 + 2 + 1 + 8 + MAX_NUM_SCOPES + 172;

pub const LISTING_SIZE: usize = 32 + 32 + 8 + 8 + 8 + 8 + 8;

pub const OFFER_SIZE: usize = 32 + 8 + 8 + 8 + 8 + 8;

pub const ESCROW_ACCOUNT_SIZE: usize = 32 + 32 + 32 + 8 + 8;

/// The bytes of the text seeds, spelled out.
pub proof fn lemma_seed_bytes()
    ensures
        SEED_OFFER.spec_bytes() == seq![111u8, 102, 102, 101, 114],
        PREFIX.spec_bytes() == seq![97u8, 117, 99, 116, 105, 111, 110, 95, 104, 111, 117, 115, 101],
        FEE_PAYER.spec_bytes() == seq![102u8, 101, 101, 95, 112, 97, 121, 101, 114],
        SEED_METADATA.spec_bytes() == seq![109u8, 101, 116, 97, 100, 97, 116, 97],
{
    reveal_strlit("offer");
    reveal_strlit("auction_house");
    reveal_strlit("fee_payer");
    reveal_strlit("metadata");
    broadcast use vstd::string::is_ascii_spec_bytes;

    assert(vstd::string::is_ascii(SEED_OFFER));
    assert(vstd::string::is_ascii(PREFIX));
    assert(vstd::string::is_ascii(FEE_PAYER));
    assert(vstd::string::is_ascii(SEED_METADATA));
    assert(SEED_OFFER.spec_bytes() =~= seq![111u8, 102, 102, 101, 114]);
    assert(PREFIX.spec_bytes() =~= seq![97u8, 117, 99, 116, 105, 111, 110, 95, 104, 111, 117, 115, 101]);
    assert(FEE_PAYER.spec_bytes() =~= seq![102u8, 101, 101, 95, 112, 97, 121, 101, 114]);
    assert(SEED_METADATA.spec_bytes() =~= seq![109u8, 101, 116, 97, 100, 97, 116, 97]);
}

} // verus!
