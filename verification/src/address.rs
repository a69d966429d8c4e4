//! Program-derived addresses and the calls into the key library.

use anchor_lang::prelude::Pubkey;
use vstd::prelude::*;
use vstd::string::StringSliceAdditionalSpecFns;
use vstd::string::StrSliceExecFns;

use crate::constants::lemma_seed_bytes;
use crate::constants::FEE_PAYER;
use crate::constants::METAPLEX_PROGRAM_ID;
use crate::constants::PREFIX;
use crate::constants::SEED_METADATA;
use crate::key::Key;

verus! {

/// The key that a base58 text names, if it names one.
pub uninterp spec fn parsed_key(text: Seq<char>) -> Option<Seq<u8>>;

/// The program-derived address and bump seed that the search finds for the
/// seeds under the program, if it finds one.
pub uninterp spec fn program_address(seeds: Seq<Seq<u8>>, program_id: Seq<u8>) -> Option<(Seq<u8>, u8)>;

/// The byte sequences of a list of seeds.
pub open spec fn seeds_view(seeds: Seq<Vec<u8>>) -> Seq<Seq<u8>> {
    seeds.map_values(|seed: Vec<u8>| seed@)
}

/// The view of an optional key.
pub open spec fn key_option_view(key: Option<Key>) -> Option<Seq<u8>> {
    match key {
        Some(k) => Some(k@),
        None => None,
    }
}

/// The view of an optional address with its bump seed.
pub open spec fn address_option_view(found: Option<(Key, u8)>) -> Option<(Seq<u8>, u8)> {
    match found {
        Some((k, bump)) => Some((k@, bump)),
        None => None,
    }
}

/// Parses a base58 key with `Pubkey::from_str`.
/// Trusted: the result is the key that `parsed_key` names for the text;
/// nothing more is claimed of the decoding.
#[verifier::external_body]
fn parse_key(text: &str) -> (key: Option<Key>)
    ensures
        key_option_view(key) == parsed_key(text@),
{
    match text.parse::<Pubkey>() {
        Ok(k) => Some(Key { bytes: k.to_bytes() }),
        Err(_) => None,
    }
}

/// Searches for a program-derived address with `Pubkey::try_find_program_address`,
/// the form of `Pubkey::find_program_address` that answers `None` where the
/// other panics.
/// Trusted: the result is what `program_address` names for the seeds and the
/// program id; nothing more is claimed of the hashing and the curve test.
#[verifier::external_body]
fn try_find_program_address(seeds: &Vec<Vec<u8>>, program_id: &Key) -> (found: Option<(Key, u8)>)
    ensures
        address_option_view(found) == program_address(seeds_view(seeds@), program_id@),
{
    let seed_refs: Vec<&[u8]> = seeds.iter().map(|s| s.as_slice()).collect();
    let program = Pubkey::new_from_array(program_id.bytes);
    Pubkey::try_find_program_address(&seed_refs, &program).map(|(k, bump)| (Key { bytes: k.to_bytes() }, bump))
}

/// Finds the address for the seeds under the program whose base58 id is
/// given; `None` where the id does not parse or the search finds no address.
pub fn find_program_address_of(seeds: &Vec<Vec<u8>>, program_id: &str) -> (found: Option<(Key, u8)>)
    ensures
        address_option_view(found) == match parsed_key(program_id@) {
            Some(id) => program_address(seeds_view(seeds@), id),
            None => None,
        },
{
    match parse_key(program_id) {
        Some(id) => try_find_program_address(seeds, &id),
        None => None,
    }
}

/// The seeds of the fee payer address of an escrow house.
pub open spec fn fee_pda_seeds(escrow_house: Seq<u8>) -> Seq<Seq<u8>> {
    seq![PREFIX.spec_bytes(), escrow_house, FEE_PAYER.spec_bytes()]
}

/// Finds the fee payer address of an escrow house and its bump seed.
/// `None` where the program id does not parse or no bump seed gives an
/// address off the curve.
pub fn find_escrow_house_fee_pda(escrow_house_address: &Key) -> (found: Option<(Key, u8)>)
    ensures
        address_option_view(found) == match parsed_key(crate::constants::PROGRAM_ID@) {
            Some(id) => program_address(fee_pda_seeds(escrow_house_address@), id),
            None => None,
        },
        address_option_view(found) == match parsed_key(crate::constants::PROGRAM_ID@) {
            Some(id) => program_address(
                seq![
                    seq![97u8, 117, 99, 116, 105, 111, 110, 95, 104, 111, 117, 115, 101],
                    escrow_house_address@,
                    seq![102u8, 101, 101, 95, 112, 97, 121, 101, 114],
                ],
                id,
            ),
            None => None,
        },
{
    proof {
        lemma_seed_bytes();
        assert(fee_pda_seeds(escrow_house_address@) =~= seq![
            seq![97u8, 117, 99, 116, 105, 111, 110, 95, 104, 111, 117, 115, 101],
            escrow_house_address@,
            seq![102u8, 101, 101, 95, 112, 97, 121, 101, 114],
        ]);
    }
    let seeds = fee_pda_seed_list(escrow_house_address);
    find_program_address_of(&seeds, crate::constants::PROGRAM_ID)
}

/// The seeds of the fee payer address of an escrow house.
pub fn fee_pda_seed_list(escrow_house_address: &Key) -> (seeds: Vec<Vec<u8>>)
    ensures
        seeds_view(seeds@) == fee_pda_seeds(escrow_house_address@),
        seeds@.len() == 3,
        seeds@[0]@ == seq![97u8, 117, 99, 116, 105, 111, 110, 95, 104, 111, 117, 115, 101],
        seeds@[1]@ == escrow_house_address@,
        seeds@[2]@ == seq![102u8, 101, 101, 95, 112, 97, 121, 101, 114],
{
    proof {
        lemma_seed_bytes();
    }
    let mut seeds: Vec<Vec<u8>> = Vec::new();
    seeds.push(PREFIX.as_bytes_vec());
    seeds.push(escrow_house_address.to_vec());
    seeds.push(FEE_PAYER.as_bytes_vec());
    assert(seeds_view(seeds@) =~= fee_pda_seeds(escrow_house_address@));
    seeds
}

/// The seeds of a token's metadata address under the metadata program.
pub open spec fn metadata_seeds(metadata_program: Seq<u8>, mint: Seq<u8>) -> Seq<Seq<u8>> {
    seq![SEED_METADATA.spec_bytes(), metadata_program, mint]
}

/// The metadata address of a token, with its bump seed.
pub open spec fn metadata_address(mint: Seq<u8>) -> Option<(Seq<u8>, u8)> {
    match parsed_key(METAPLEX_PROGRAM_ID@) {
        Some(id) => program_address(metadata_seeds(id, mint), id),
        None => None,
    }
}

/// Finds the metadata address of a token and its bump seed; `None` where the
/// metadata program id does not parse or no bump seed gives an address off
/// the curve.
pub fn find_metadata_pda(mint: &Key) -> (found: Option<(Key, u8)>)
    ensures
        address_option_view(found) == metadata_address(mint@),
        address_option_view(found) == match parsed_key(METAPLEX_PROGRAM_ID@) {
            Some(id) => program_address(seq![seq![109u8, 101, 116, 97, 100, 97, 116, 97], id, mint@], id),
            None => None,
        },
{
    proof {
        lemma_seed_bytes();
        if parsed_key(METAPLEX_PROGRAM_ID@) is Some {
            let id = parsed_key(METAPLEX_PROGRAM_ID@)->0;
            assert(metadata_seeds(id, mint@) =~= seq![seq![109u8, 101, 116, 97, 100, 97, 116, 97], id, mint@]);
        }
    }
    match parse_key(METAPLEX_PROGRAM_ID) {
        Some(id) => {
            let seeds = metadata_seed_list(&id, mint);
            try_find_program_address(&seeds, &id)
        },
        None => None,
    }
}

/// The seeds of a token's metadata address under the metadata program.
pub fn metadata_seed_list(metadata_program: &Key, mint: &Key) -> (seeds: Vec<Vec<u8>>)
    ensures
        seeds_view(seeds@) == metadata_seeds(metadata_program@, mint@),
        seeds@.len() == 3,
        seeds@[0]@ == seq![109u8, 101, 116, 97, 100, 97, 116, 97],
        seeds@[1]@ == metadata_program@,
        seeds@[2]@ == mint@,
{
    proof {
        lemma_seed_bytes();
    }
    let mut seeds: Vec<Vec<u8>> = Vec::new();
    seeds.push(SEED_METADATA.as_bytes_vec());
    seeds.push(metadata_program.to_vec());
    seeds.push(mint.to_vec());
    assert(seeds_view(seeds@) =~= metadata_seeds(metadata_program@, mint@));
    seeds
}

/// Whether `metadata` is the metadata address of the token `mint`; `None`
/// where that address cannot be derived.
pub fn metadata_matches(mint: &Key, metadata: &Key) -> (matches: Option<bool>)
    ensures
        matches == match metadata_address(mint@) {
            Some((address, _)) => Some(address == metadata@),
            None => None,
        },
{
    match find_metadata_pda(mint) {
        Some((address, _)) => Some(address.equals(metadata)),
        None => None,
    }
}

} // verus!
