//! Failures of the claim service.

use crate::nonce_verify::errors::NonceVerifyErrors;
use crate::runtime::TokenError;
use vstd::prelude::*;

verus! {

/// Why an instruction of the claim service fails. Every failure leaves the
/// accounts as they were.
#[derive(Clone, Copy, Debug, PartialEq, Eq)]
pub enum AirdropErrors {
    /// The claim is the first instruction of its bundle: no signature check
    /// stands before it.
    MissingEd25519Instruction,
    /// The instruction before the claim is no signature check of the shape
    /// expected: another program, accounts, or data of another length.
    InvalidEd25519Instruction,
    /// The signature check was given other offsets, another key, another
    /// signature or another message than the claim expects.
    SigVerificationFailed,
    /// The record to create exists already.
    AlreadyExists,
    /// The record to close does not exist.
    AccountNotInitialized,
    /// A balance would pass the largest 64-bit number.
    LamportOverflow,
    /// An account's address is not the one derived from its seeds.
    ConstraintSeeds,
    /// An account is not the one that a record names.
    ConstraintHasOne,
    /// The token account belongs to another mint than the one claimed.
    ConstraintTokenMint,
    /// The token account belongs to another owner than the claiming user.
    ConstraintTokenOwner,
    /// The token account is not the user's associated account of the mint.
    AccountNotAssociatedTokenAccount,
    /// The nonce service refused.
    Nonce(NonceVerifyErrors),
    /// The token primitive refused.
    Token(TokenError),
}

} // verus!
