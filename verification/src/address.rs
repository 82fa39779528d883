//! Addresses that a program derives from seeds: the protocol's fee pool and
//! the token accounts associated with a wallet.
use vstd::prelude::*;
use vstd::slice::slice_to_vec;

use crate::pubkey::{lemma_pubkey_of_bytes, pubkey_of_bytes, Pubkey};

verus! {

/// The bytes of the program that owns every associated token account.
pub const ASSOCIATED_TOKEN_PROGRAM_BYTES: [u8; 32] = [
    140, 151, 37, 143, 78, 36, 137, 241, 187, 61, 16, 41, 20, 142, 13, 131,
    11, 90, 19, 153, 218, 255, 16, 132, 4, 142, 123, 216, 219, 233, 248, 89,
];

/// The bytes of the mint that stands for the native currency where a mint is
/// asked for.
pub const WSOL_MINT_BYTES: [u8; 32] = [
    6, 155, 136, 87, 254, 171, 129, 132, 251, 104, 127, 99, 70, 24, 192, 53,
    218, 196, 57, 220, 26, 235, 59, 85, 152, 160, 240, 0, 0, 0, 0, 1,
];

/// The program that owns every associated token account.
pub open spec fn spec_associated_token_program_id() -> Pubkey {
    Pubkey { bytes: ASSOCIATED_TOKEN_PROGRAM_BYTES }
}

/// The program that owns every associated token account.
#[verifier::when_used_as_spec(spec_associated_token_program_id)]
pub fn associated_token_program_id() -> (id: Pubkey)
    ensures
        id == spec_associated_token_program_id(),
{
    Pubkey { bytes: ASSOCIATED_TOKEN_PROGRAM_BYTES }
}

/// The mint that stands for the native currency where a mint is asked for.
pub open spec fn spec_wsol_mint() -> Pubkey {
    Pubkey { bytes: WSOL_MINT_BYTES }
}

/// The mint that stands for the native currency where a mint is asked for.
#[verifier::when_used_as_spec(spec_wsol_mint)]
pub fn wsol_mint() -> (mint: Pubkey)
    ensures
        mint == spec_wsol_mint(),
{
    Pubkey { bytes: WSOL_MINT_BYTES }
}

/// The seed of the protocol's fee pool: the text `protocol`.
pub open spec fn protocol_seed() -> Seq<u8> {
    seq![112u8, 114, 111, 116, 111, 99, 111, 108]
}

/// The byte strings that a list of seeds holds.
pub open spec fn seed_bytes(seeds: Seq<Vec<u8>>) -> Seq<Seq<u8>> {
    Seq::new(seeds.len(), |i: int| seeds[i]@)
}

/// The bytes of the address that `Pubkey::try_find_program_address` of
/// `solana_program` finds for the seeds under the program; `None` where it
/// finds none.
pub uninterp spec fn program_address(seeds: Seq<Seq<u8>>, program_id: Seq<u8>) -> Option<Seq<u8>>;

/// The address derived from the seeds under the program, if there is one.
pub open spec fn derived_address(seeds: Seq<Seq<u8>>, program_id: Pubkey) -> Option<Pubkey> {
    match program_address(seeds, program_id@) {
        Some(bytes) => Some(pubkey_of_bytes(bytes)),
        None => None,
    }
}

/// The address of the protocol's fee pool under the program.
pub open spec fn protocol_address(program_id: Pubkey) -> Option<Pubkey> {
    derived_address(seq![protocol_seed()], program_id)
}

/// The token account associated with the wallet for the mint, under the
/// token program: derived from wallet, token program and mint, in that
/// order, under the associated-token program.
pub open spec fn associated_token_address(
    wallet: Pubkey,
    mint: Pubkey,
    token_program: Pubkey,
) -> Option<Pubkey> {
    derived_address(seq![wallet@, token_program@, mint@], associated_token_program_id())
}

/// Calls `Pubkey::try_find_program_address` of `solana_program` and keeps
/// the address, not the bump seed. The call searches the bump seeds from 255
/// down and hashes seeds, bump and program; the contract only gives the
/// outcome its name, `program_address`.
#[verifier::external_body]
fn try_find_program_address(seeds: &Vec<Vec<u8>>, program_id: &Pubkey) -> (r: Option<Pubkey>)
    ensures
        r is Some <==> program_address(seed_bytes(seeds@), program_id@) is Some,
        r is Some ==> r->0@ == program_address(seed_bytes(seeds@), program_id@)->0,
{
    let seeds: Vec<&[u8]> = seeds.iter().map(|seed| seed.as_slice()).collect();
    let program = anchor_lang::prelude::Pubkey::new_from_array(program_id.bytes);
    anchor_lang::prelude::Pubkey::try_find_program_address(&seeds, &program).map(
        |(key, _)| Pubkey { bytes: key.to_bytes() },
    )
}

/// Derives the address for the seeds under the program.
pub fn find_derived_address(seeds: &Vec<Vec<u8>>, program_id: &Pubkey) -> (r: Option<Pubkey>)
    ensures
        r == derived_address(seed_bytes(seeds@), *program_id),
{
    let found = try_find_program_address(seeds, program_id);
    proof {
        if let Some(key) = found {
            lemma_pubkey_of_bytes(key);
        }
    }
    found
}

/// Derives the address of the protocol's fee pool under the program.
pub fn find_protocol_address(program_id: &Pubkey) -> (r: Option<Pubkey>)
    ensures
        r == protocol_address(*program_id),
{
    let mut seed: Vec<u8> = Vec::new();
    seed.push(112);
    seed.push(114);
    seed.push(111);
    seed.push(116);
    seed.push(111);
    seed.push(99);
    seed.push(111);
    seed.push(108);
    let mut seeds: Vec<Vec<u8>> = Vec::new();
    seeds.push(seed);
    proof {
        assert(seed@ =~= protocol_seed());
        assert(seed_bytes(seeds@) =~= seq![protocol_seed()]);
    }
    find_derived_address(&seeds, program_id)
}

/// Derives the associated token account address for the given wallet
/// address, token mint and token program; `None` where the derivation finds
/// no address.
pub fn get_associated_token_address_with_program_id(
    wallet_address: &Pubkey,
    token_mint_address: &Pubkey,
    token_program_id: &Pubkey,
) -> (r: Option<Pubkey>)
    ensures
        r == associated_token_address(*wallet_address, *token_mint_address, *token_program_id),
{
    let mut seeds: Vec<Vec<u8>> = Vec::new();
    seeds.push(slice_to_vec(wallet_address.bytes.as_slice()));
    seeds.push(slice_to_vec(token_program_id.bytes.as_slice()));
    seeds.push(slice_to_vec(token_mint_address.bytes.as_slice()));
    proof {
        assert(seed_bytes(seeds@) =~= seq![
            wallet_address@,
            token_program_id@,
            token_mint_address@,
        ]);
    }
    let program = associated_token_program_id();
    find_derived_address(&seeds, &program)
}

} // verus!
