//! Failures of the direct distribution service.

use crate::runtime::{TokenError, TransferError};
use vstd::prelude::*;

verus! {

/// Why an instruction of the direct distribution service fails. Every
/// failure leaves the accounts as they were.
#[derive(Clone, Copy, Debug, PartialEq, Eq)]
pub enum DirectDistributeAirdropErrors {
    /// The one manage project is initialized already.
    AlreadyInitialized,
    /// There are not two accounts for each amount.
    AirdropReceiverCountNotMatch,
    /// A token account is not the associated account of its receiver.
    ReceiverTokenAccountNotMatchReceiverAccount,
    /// The record to create exists already.
    AlreadyExists,
    /// A fee cannot be paid from the balance it is taken from.
    InsufficientFunds,
    /// A balance or a fee would pass the largest 64-bit number.
    LamportOverflow,
    /// An account's address is not the one derived from its seeds.
    ConstraintSeeds,
    /// An account is not the one that a record names.
    ConstraintHasOne,
    /// The token primitive refused.
    Token(TokenError),
}

/// The failure of the service that a failed transfer becomes.
pub open spec fn transfer_failure(e: TransferError) -> DirectDistributeAirdropErrors {
    match e {
        TransferError::InsufficientFunds => DirectDistributeAirdropErrors::InsufficientFunds,
        TransferError::Overflow => DirectDistributeAirdropErrors::LamportOverflow,
    }
}

impl DirectDistributeAirdropErrors {
    /// The failure of the service that a failed transfer becomes.
    pub fn from_transfer(e: TransferError) -> (r: DirectDistributeAirdropErrors)
        ensures
            r == transfer_failure(e),
    {
        match e {
            TransferError::InsufficientFunds => DirectDistributeAirdropErrors::InsufficientFunds,
            TransferError::Overflow => DirectDistributeAirdropErrors::LamportOverflow,
        }
    }
}

} // verus!
