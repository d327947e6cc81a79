//! The canonical bytes that the off-chain signer signs for one claim.

use crate::address::Address;
use crate::encoding::{
    le_bytes, le_value, lemma_le_bytes_len, lemma_le_value_of_le_bytes, pow256, push_le,
};
use vstd::prelude::*;

verus! {

/// Length of the payload: 4 + 8 + 4 * 32 bytes.
pub const PAYLOAD_LEN: usize = 140;

/// The payload of a claim: the nonce in four bytes and the amount in eight,
/// both least significant byte first, then the addresses of the mint, the
/// user, the issuing project and the business project.
pub open spec fn payload_bytes(
    nonce: u32,
    amount: u64,
    mint: Seq<u8>,
    user: Seq<u8>,
    airdrop_project: Seq<u8>,
    business_project: Seq<u8>,
) -> Seq<u8> {
    le_bytes(nonce as nat, 4) + le_bytes(amount as nat, 8) + mint + user + airdrop_project
        + business_project
}

/// The payload is 140 bytes long and each field stands at its fixed place.
pub proof fn lemma_payload_layout(
    nonce: u32,
    amount: u64,
    mint: Seq<u8>,
    user: Seq<u8>,
    airdrop_project: Seq<u8>,
    business_project: Seq<u8>,
)
    requires
        mint.len() == 32,
        user.len() == 32,
        airdrop_project.len() == 32,
        business_project.len() == 32,
    ensures
        ({
            let p = payload_bytes(nonce, amount, mint, user, airdrop_project, business_project);
            &&& p.len() == PAYLOAD_LEN
            &&& p.subrange(0, 4) == le_bytes(nonce as nat, 4)
            &&& p.subrange(4, 12) == le_bytes(amount as nat, 8)
            &&& p.subrange(12, 44) == mint
            &&& p.subrange(44, 76) == user
            &&& p.subrange(76, 108) == airdrop_project
            &&& p.subrange(108, 140) == business_project
        }),
{
    lemma_le_bytes_len(nonce as nat, 4);
    lemma_le_bytes_len(amount as nat, 8);
    let p = payload_bytes(nonce, amount, mint, user, airdrop_project, business_project);
    assert(p.subrange(0, 4) =~= le_bytes(nonce as nat, 4));
    assert(p.subrange(4, 12) =~= le_bytes(amount as nat, 8));
    assert(p.subrange(12, 44) =~= mint);
    assert(p.subrange(44, 76) =~= user);
    assert(p.subrange(76, 108) =~= airdrop_project);
    assert(p.subrange(108, 140) =~= business_project);
}

/// The payload determines every field of the claim: two claims with the same
/// payload have the same nonce, amount and addresses.
pub proof fn lemma_payload_determines_claim(
    nonce: u32,
    amount: u64,
    mint: Seq<u8>,
    user: Seq<u8>,
    airdrop_project: Seq<u8>,
    business_project: Seq<u8>,
    other_nonce: u32,
    other_amount: u64,
    other_mint: Seq<u8>,
    other_user: Seq<u8>,
    other_airdrop_project: Seq<u8>,
    other_business_project: Seq<u8>,
)
    requires
        mint.len() == 32,
        user.len() == 32,
        airdrop_project.len() == 32,
        business_project.len() == 32,
        other_mint.len() == 32,
        other_user.len() == 32,
        other_airdrop_project.len() == 32,
        other_business_project.len() == 32,
        payload_bytes(nonce, amount, mint, user, airdrop_project, business_project)
            == payload_bytes(
            other_nonce,
            other_amount,
            other_mint,
            other_user,
            other_airdrop_project,
            other_business_project,
        ),
    ensures
        nonce == other_nonce,
        amount == other_amount,
        mint == other_mint,
        user == other_user,
        airdrop_project == other_airdrop_project,
        business_project == other_business_project,
{
    lemma_payload_layout(nonce, amount, mint, user, airdrop_project, business_project);
    lemma_payload_layout(
        other_nonce,
        other_amount,
        other_mint,
        other_user,
        other_airdrop_project,
        other_business_project,
    );
    reveal_with_fuel(pow256, 9);
    assert(pow256(4) == 0x1_0000_0000);
    assert(pow256(8) == 0x1_0000_0000_0000_0000);
    lemma_le_value_of_le_bytes(nonce as nat, 4);
    lemma_le_value_of_le_bytes(other_nonce as nat, 4);
    lemma_le_value_of_le_bytes(amount as nat, 8);
    lemma_le_value_of_le_bytes(other_amount as nat, 8);
    assert(le_value(le_bytes(nonce as nat, 4)) == nonce);
    assert(le_value(le_bytes(other_nonce as nat, 4)) == other_nonce);
    assert(le_value(le_bytes(amount as nat, 8)) == amount);
    assert(le_value(le_bytes(other_amount as nat, 8)) == other_amount);
}

/// Builds the payload of a claim.
pub fn build_payload(
    nonce: u32,
    amount: u64,
    mint: &Address,
    user: &Address,
    airdrop_project: &Address,
    business_project: &Address,
) -> (payload: Vec<u8>)
    ensures
        payload@ == payload_bytes(
            nonce,
            amount,
            mint@,
            user@,
            airdrop_project@,
            business_project@,
        ),
        payload@.len() == PAYLOAD_LEN,
{
    let mut payload: Vec<u8> = Vec::new();
    push_le(&mut payload, nonce as u64, 4);
    push_le(&mut payload, amount, 8);
    mint.append_to(&mut payload);
    user.append_to(&mut payload);
    airdrop_project.append_to(&mut payload);
    business_project.append_to(&mut payload);
    proof {
        lemma_payload_layout(nonce, amount, mint@, user@, airdrop_project@, business_project@);
        assert(payload@ =~= payload_bytes(
            nonce,
            amount,
            mint@,
            user@,
            airdrop_project@,
            business_project@,
        ));
    }
    payload
}

} // verus!
