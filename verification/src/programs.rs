//! Addresses of the programs that the protocol names.

use crate::address::{program_derived_address, seed_views, try_find_program_address, Address};
use anchor_lang::solana_program::pubkey::Pubkey;
use vstd::prelude::*;

verus! {

/// The address of the native program that verifies ed25519 signatures,
/// `Ed25519SigVerify111111111111111111111111111` in base58.
pub const ED25519_PROGRAM_ID: [u8; 32] = [
    3, 125, 70, 214, 124, 147, 251, 190, 18, 249, 66, 143, 131, 141, 64, 255, 5, 112, 116, 73, 39,
    244, 138, 100, 252, 202, 112, 68, 128, 0, 0, 0,
];

/// The address of the token program,
/// `TokenkegQfeZyiNwAJbNbGKPFXCWuBvf9Ss623VQ5DA` in base58.
pub const TOKEN_PROGRAM_ID: [u8; 32] = [
    6, 221, 246, 225, 215, 101, 161, 147, 217, 203, 225, 70, 206, 235, 121, 172, 28, 180, 133, 237,
    95, 91, 55, 145, 58, 140, 245, 133, 126, 255, 0, 169,
];

/// The address of the associated token account program,
/// `ATokenGPvbdGVxr1b2hvZbsiqW5xWH25efTNsLJA8knL` in base58.
pub const ASSOCIATED_TOKEN_PROGRAM_ID: [u8; 32] = [
    140, 151, 37, 143, 78, 36, 137, 241, 187, 61, 16, 41, 20, 142, 13, 131, 11, 90, 19, 153, 218,
    255, 16, 132, 4, 142, 123, 216, 219, 233, 248, 89,
];

/// The address of the nonce service,
/// `4U17W5WH9JJQZK9HcZaD9mYhWehhBSyymAoG6gMYj5CW` in base58.
pub const NONCE_VERIFY_ID: [u8; 32] = [
    51, 125, 222, 142, 213, 123, 45, 25, 206, 115, 36, 55, 151, 104, 151, 146, 167, 58, 160, 235,
    244, 244, 138, 204, 27, 195, 156, 224, 98, 86, 78, 107,
];

/// The address of the claim service,
/// `GMznVrvA9P4WfBzJPWq92BWmsBMQUo6pb8B7CMSvgX9n` in base58.
pub const SOLANA_AIRDROP_ID: [u8; 32] = [
    228, 64, 65, 212, 197, 169, 2, 30, 137, 41, 12, 34, 16, 70, 133, 75, 65, 180, 236, 153, 52, 96,
    101, 1, 161, 167, 147, 132, 45, 63, 111, 189,
];

/// The address of the direct distribution service,
/// `GaHqnnZv2CeZYEA23V1zGuADSFhWnJZSmFzLeje1H2T1` in base58.
pub const DIRECT_DISTRIBUTE_AIRDROP_ID: [u8; 32] = [
    231, 102, 131, 83, 190, 29, 85, 210, 42, 157, 152, 116, 187, 24, 195, 129, 86, 208, 17, 254, 18,
    77, 114, 205, 181, 11, 247, 37, 173, 204, 165, 168,
];

/// The address with the given bytes.
pub open spec fn program(bytes: [u8; 32]) -> Address {
    Address { bytes }
}

/// The seeds of the associated token account of `wallet` for `mint`, under
/// the associated token account program.
pub open spec fn associated_token_seeds(wallet: Address, mint: Address) -> Seq<Seq<u8>> {
    seq![wallet@, TOKEN_PROGRAM_ID@, mint@]
}

/// `ed25519_program::ID` of solana-program, the constant that
/// `declare_id!("Ed25519SigVerify111111111111111111111111111")` declares:
/// the contract gives its thirty-two bytes.
#[verifier::external_body]
pub(crate) fn ed25519_program_id() -> (id: Address)
    ensures
        id == program(ED25519_PROGRAM_ID),
{
    Address { bytes: anchor_lang::solana_program::ed25519_program::ID.to_bytes() }
}

/// `token::ID` of anchor-spl, the constant that spl-token declares with
/// `declare_id!("TokenkegQfeZyiNwAJbNbGKPFXCWuBvf9Ss623VQ5DA")`: the
/// contract gives its thirty-two bytes.
#[verifier::external_body]
pub(crate) fn token_program_id() -> (id: Address)
    ensures
        id == program(TOKEN_PROGRAM_ID),
{
    Address { bytes: anchor_spl::token::ID.to_bytes() }
}

/// `associated_token::get_associated_token_address_with_program_id` of
/// anchor-spl: the first component of `Pubkey::find_program_address` on the
/// seeds wallet, token program, mint, under the associated token account
/// program. The outside function panics where no address can be derived, so
/// the contract asks that one can.
#[verifier::external_body]
pub(crate) fn get_associated_token_address_with_program_id(
    wallet: &Address,
    mint: &Address,
    token_program: &Address,
) -> (ata: Address)
    requires
        program_derived_address(
            seq![wallet@, token_program@, mint@],
            ASSOCIATED_TOKEN_PROGRAM_ID@,
        ) is Some,
    ensures
        ata@ == program_derived_address(
            seq![wallet@, token_program@, mint@],
            ASSOCIATED_TOKEN_PROGRAM_ID@,
        ).unwrap().0,
{
    let key = anchor_spl::associated_token::get_associated_token_address_with_program_id(
        &Pubkey::new_from_array(wallet.bytes),
        &Pubkey::new_from_array(mint.bytes),
        &Pubkey::new_from_array(token_program.bytes),
    );
    Address { bytes: key.to_bytes() }
}

/// The associated token account of `wallet` for `mint` under the token
/// program; `None` where no such address can be derived.
pub fn associated_token_address(wallet: &Address, mint: &Address) -> (r: Option<Address>)
    ensures
        match program_derived_address(
            associated_token_seeds(*wallet, *mint),
            ASSOCIATED_TOKEN_PROGRAM_ID@,
        ) {
            Some((bytes, _)) => r matches Some(a) && a@ == bytes,
            None => r is None,
        },
{
    let token = token_program_id();
    let seeds = seeds_of_associated_token(wallet, mint);
    match try_find_program_address(&seeds, &associated_token_program()) {
        None => None,
        Some(_) => Some(get_associated_token_address_with_program_id(wallet, mint, &token)),
    }
}

/// The address of the signature verification program.
pub fn ed25519_program() -> (id: Address)
    ensures
        id == program(ED25519_PROGRAM_ID),
{
    ed25519_program_id()
}

/// The address of the token program.
pub fn token_program() -> (id: Address)
    ensures
        id == program(TOKEN_PROGRAM_ID),
{
    token_program_id()
}

/// The address of the nonce service.
pub fn nonce_verify_program() -> (id: Address)
    ensures
        id == program(NONCE_VERIFY_ID),
{
    Address { bytes: NONCE_VERIFY_ID }
}

/// The address of the claim service.
pub fn solana_airdrop_program() -> (id: Address)
    ensures
        id == program(SOLANA_AIRDROP_ID),
{
    Address { bytes: SOLANA_AIRDROP_ID }
}

/// The address of the direct distribution service.
pub fn direct_distribute_airdrop_program() -> (id: Address)
    ensures
        id == program(DIRECT_DISTRIBUTE_AIRDROP_ID),
{
    Address { bytes: DIRECT_DISTRIBUTE_AIRDROP_ID }
}

/// The address of the associated token account program.
pub fn associated_token_program() -> (id: Address)
    ensures
        id == program(ASSOCIATED_TOKEN_PROGRAM_ID),
{
    Address { bytes: ASSOCIATED_TOKEN_PROGRAM_ID }
}

/// Builds the seeds of the associated token account of `wallet` for `mint`.
pub fn seeds_of_associated_token(wallet: &Address, mint: &Address) -> (seeds: Vec<Vec<u8>>)
    ensures
        seed_views(seeds@) == associated_token_seeds(*wallet, *mint),
{
    let token = token_program_id();
    let mut seeds: Vec<Vec<u8>> = Vec::new();
    seeds.push(wallet.to_vec());
    seeds.push(token.to_vec());
    seeds.push(mint.to_vec());
    assert(seed_views(seeds@) =~= associated_token_seeds(*wallet, *mint));
    seeds
}

} // verus!
