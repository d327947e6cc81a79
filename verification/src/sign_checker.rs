//! The offline parity tool: it writes the payload of a claim as
//! hexadecimal text and checks a signature over such text, so that another
//! signer can be held to the validator byte for byte.

use crate::address::{base58_address, pubkey_from_str, Address};
use crate::encoding::{from_hex, hex_decoding, hex_encoding, lemma_hex_round_trip, to_hex};
use crate::payload::{build_payload, payload_bytes};
use solana_sdk::signature::Signature;
use vstd::prelude::*;

verus! {

/// Why the tool refuses its arguments.
#[derive(Clone, Copy, Debug, PartialEq, Eq)]
pub enum SignCheckError {
    /// The mint address is no base58 address.
    InvalidMintAddress,
    /// The user address is no base58 address.
    InvalidUserAddress,
    /// The airdrop project address is no base58 address.
    InvalidAirdropProjectAddress,
    /// The business project address is no base58 address.
    InvalidNonceBusinessProjectAddress,
    /// The public key is no base58 address.
    InvalidPk,
    /// The signature is no hexadecimal text.
    DecodeSignatureFailed,
    /// The signature is not 64 bytes long.
    InvalidSignature,
    /// The payload is no hexadecimal text.
    DecodeSignDataFailed,
}

/// Whether the ed25519 signature `signature` of 64 bytes is valid for
/// `message` under the public key `public_key`, by strict verification.
pub uninterp spec fn ed25519_verifies(
    signature: Seq<u8>,
    public_key: Seq<u8>,
    message: Seq<u8>,
) -> bool;

/// `Signature::verify` of solana-sdk on the signature made of `signature`:
/// strict ed25519 verification of `message` under `public_key`. The
/// contract names the answer and says nothing else of it.
#[verifier::external_body]
pub(crate) fn signature_verify(signature: &[u8; 64], public_key: &Address, message: &Vec<u8>) -> (ok:
    bool)
    ensures
        ok == ed25519_verifies(signature@, public_key@, message@),
{
    Signature::from(*signature).verify(&public_key.bytes, message.as_slice())
}

/// What `sign_data` answers: the hexadecimal text of the payload, or the
/// first address that does not parse.
pub open spec fn sign_data_outcome(
    nonce: u32,
    amount: u64,
    mint_address: Seq<char>,
    user_address: Seq<char>,
    airdrop_project_address: Seq<char>,
    nonce_business_project_address: Seq<char>,
) -> Result<Seq<char>, SignCheckError> {
    match base58_address(mint_address) {
        None => Err(SignCheckError::InvalidMintAddress),
        Some(mint) => match base58_address(user_address) {
            None => Err(SignCheckError::InvalidUserAddress),
            Some(user) => match base58_address(airdrop_project_address) {
                None => Err(SignCheckError::InvalidAirdropProjectAddress),
                Some(project) => match base58_address(nonce_business_project_address) {
                    None => Err(SignCheckError::InvalidNonceBusinessProjectAddress),
                    Some(business) => Ok(
                        hex_encoding(payload_bytes(nonce, amount, mint, user, project, business)),
                    ),
                },
            },
        },
    }
}

/// The view of a text result.
pub open spec fn text_view(r: Result<String, SignCheckError>) -> Result<Seq<char>, SignCheckError> {
    match r {
        Ok(text) => Ok(text@),
        Err(e) => Err(e),
    }
}

/// Writes the payload of a claim as hexadecimal text. The four addresses
/// are given in base58.
pub fn sign_data(
    nonce: u32,
    amount: u64,
    mint_address: &str,
    user_address: &str,
    airdrop_project_address: &str,
    nonce_business_project_address: &str,
) -> (r: Result<String, SignCheckError>)
    ensures
        text_view(r) == sign_data_outcome(
            nonce,
            amount,
            mint_address@,
            user_address@,
            airdrop_project_address@,
            nonce_business_project_address@,
        ),
{
    let mint = match pubkey_from_str(mint_address) {
        Some(a) => a,
        None => {
            return Err(SignCheckError::InvalidMintAddress);
        },
    };
    let user = match pubkey_from_str(user_address) {
        Some(a) => a,
        None => {
            return Err(SignCheckError::InvalidUserAddress);
        },
    };
    let project = match pubkey_from_str(airdrop_project_address) {
        Some(a) => a,
        None => {
            return Err(SignCheckError::InvalidAirdropProjectAddress);
        },
    };
    let business = match pubkey_from_str(nonce_business_project_address) {
        Some(a) => a,
        None => {
            return Err(SignCheckError::InvalidNonceBusinessProjectAddress);
        },
    };
    let data = build_payload(nonce, amount, &mint, &user, &project, &business);
    Ok(to_hex(&data))
}

/// What `verify_sign` answers: whether the signature verifies, or the first
/// argument that cannot be read.
pub open spec fn verify_sign_outcome(sign_data: Seq<char>, signature: Seq<char>, pk: Seq<char>) -> Result<
    bool,
    SignCheckError,
> {
    match base58_address(pk) {
        None => Err(SignCheckError::InvalidPk),
        Some(key) => match hex_decoding(signature) {
            None => Err(SignCheckError::DecodeSignatureFailed),
            Some(sig) => if sig.len() != 64 {
                Err(SignCheckError::InvalidSignature)
            } else {
                match hex_decoding(sign_data) {
                    None => Err(SignCheckError::DecodeSignDataFailed),
                    Some(message) => Ok(ed25519_verifies(sig, key, message)),
                }
            },
        },
    }
}

/// The 64 bytes of a signature as an array.
pub fn signature_array(bytes: &Vec<u8>) -> (r: Option<[u8; 64]>)
    ensures
        r is Some == (bytes@.len() == 64),
        r matches Some(a) ==> a@ == bytes@,
{
    if bytes.len() != 64 {
        return None;
    }
    let mut a = [0u8; 64];
    let mut i: usize = 0;
    while i < 64
        invariant
            i <= 64,
            bytes@.len() == 64,
            forall|j: int| 0 <= j < i ==> a@[j] == bytes@[j],
        decreases 64 - i,
    {
        a[i] = bytes[i];
        i = i + 1;
    }
    assert(a@ =~= bytes@);
    Some(a)
}

/// Checks a signature, given as hexadecimal text, over a payload, given as
/// hexadecimal text, under a public key given in base58.
pub fn verify_sign(sign_data: &str, signature: &str, pk: &str) -> (r: Result<bool, SignCheckError>)
    ensures
        r == verify_sign_outcome(sign_data@, signature@, pk@),
{
    let key = match pubkey_from_str(pk) {
        Some(a) => a,
        None => {
            return Err(SignCheckError::InvalidPk);
        },
    };
    let sig_bytes = match from_hex(signature) {
        Some(b) => b,
        None => {
            return Err(SignCheckError::DecodeSignatureFailed);
        },
    };
    let sig = match signature_array(&sig_bytes) {
        Some(a) => a,
        None => {
            return Err(SignCheckError::InvalidSignature);
        },
    };
    let message = match from_hex(sign_data) {
        Some(b) => b,
        None => {
            return Err(SignCheckError::DecodeSignDataFailed);
        },
    };
    Ok(signature_verify(&sig, &key, &message))
}

/// The word that the tool prints for a verdict.
pub fn verdict(verified: bool) -> (word: &'static str)
    ensures
        verified ==> word@ == "pass"@,
        !verified ==> word@ == "failed"@,
{
    if verified {
        "pass"
    } else {
        "failed"
    }
}

/// The text that `sign_data` writes, fed to `verify_sign` with a signature
/// of 64 bytes in hexadecimal text and a key that parses, is read back as
/// the payload itself: the verdict is that of the signature over the
/// payload's bytes.
pub proof fn lemma_sign_data_feeds_verify_sign(
    payload: Seq<u8>,
    signature: Seq<u8>,
    pk: Seq<char>,
)
    requires
        signature.len() == 64,
        base58_address(pk) is Some,
    ensures
        verify_sign_outcome(hex_encoding(payload), hex_encoding(signature), pk) == Ok::<
            bool,
            SignCheckError,
        >(ed25519_verifies(signature, base58_address(pk).unwrap(), payload)),
{
    lemma_hex_round_trip(payload);
    lemma_hex_round_trip(signature);
}

} // verus!
