//! Failures of the nonce service.

use crate::runtime::TransferError;
use vstd::prelude::*;

verus! {

/// Why an instruction of the nonce service fails. Every failure leaves the
/// accounts as they were.
#[derive(Clone, Copy, Debug, PartialEq, Eq)]
pub enum NonceVerifyErrors {
    /// The project name is too long.
    ProjectNameTooLong,
    /// Registration needs the signature of the nonce project's admin.
    RunOutOfAdminSignature,
    /// The nonce that was claimed is not the stored one.
    NonceValueNotMatch,
    /// The stored nonce is the largest one and cannot advance.
    NonceExhausted,
    /// The record to create exists already.
    AlreadyExists,
    /// The record to close does not exist.
    AccountNotInitialized,
    /// A fee or refund cannot be paid from the balance it is taken from.
    InsufficientFunds,
    /// A balance would pass the largest 64-bit number.
    LamportOverflow,
    /// An account's address is not the one derived from its seeds.
    ConstraintSeeds,
    /// An account is not the one that a record names.
    ConstraintHasOne,
}

/// The failure of the nonce service that a failed transfer becomes.
pub open spec fn transfer_failure(e: TransferError) -> NonceVerifyErrors {
    match e {
        TransferError::InsufficientFunds => NonceVerifyErrors::InsufficientFunds,
        TransferError::Overflow => NonceVerifyErrors::LamportOverflow,
    }
}

impl NonceVerifyErrors {
    /// The failure of the nonce service that a failed transfer becomes.
    pub fn from_transfer(e: TransferError) -> (r: NonceVerifyErrors)
        ensures
            r == transfer_failure(e),
    {
        match e {
            TransferError::InsufficientFunds => NonceVerifyErrors::InsufficientFunds,
            TransferError::Overflow => NonceVerifyErrors::LamportOverflow,
        }
    }
}

} // verus!
