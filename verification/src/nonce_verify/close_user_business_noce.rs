//! Closing a nonce record: the one operation that destroys state, and only
//! the record's owner may ask for it.

use crate::nonce_verify::errors::{transfer_failure, NonceVerifyErrors};
use crate::nonce_verify::init_user_business_nonce::UserBusinessNonceState;
use crate::runtime::{transfer, transfer_outcome, AccountSlot, Signer};
use vstd::prelude::*;

verus! {

/// The accounts of `close_user_business_noce`.
#[derive(Clone, Copy, Debug, PartialEq, Eq)]
pub struct CloseUserBusinessNonceAccounts {
    /// The user, who signs and receives the balance of the record.
    pub nonce_user: Signer,
    /// The record to close.
    pub user_business_nonce: AccountSlot<UserBusinessNonceState>,
}

/// What `close_user_business_noce` does: the accounts after it, or the
/// failure. The record must exist and name the signer as its user; its whole
/// balance then goes to the user and the record is gone.
pub open spec fn close_user_business_noce_outcome(pre: CloseUserBusinessNonceAccounts) -> Result<
    CloseUserBusinessNonceAccounts,
    NonceVerifyErrors,
> {
    match pre.user_business_nonce.data {
        None => Err(NonceVerifyErrors::AccountNotInitialized),
        Some(record) => if record.nonce_user != pre.nonce_user.key {
            Err(NonceVerifyErrors::ConstraintHasOne)
        } else {
            match transfer_outcome(
                pre.user_business_nonce.lamports,
                pre.nonce_user.lamports,
                pre.user_business_nonce.lamports,
            ) {
                Err(e) => Err(transfer_failure(e)),
                Ok((left, user)) => Ok(
                    CloseUserBusinessNonceAccounts {
                        nonce_user: Signer { lamports: user, ..pre.nonce_user },
                        user_business_nonce: AccountSlot {
                            lamports: left,
                            data: None,
                            ..pre.user_business_nonce
                        },
                    },
                ),
            }
        },
    }
}

/// Closes the nonce record of the signing user and refunds its balance to
/// the user.
pub fn close_user_business_noce(ctx: &mut CloseUserBusinessNonceAccounts) -> (r: Result<
    (),
    NonceVerifyErrors,
>)
    ensures
        match close_user_business_noce_outcome(*old(ctx)) {
            Ok(post) => r is Ok && *final(ctx) == post,
            Err(e) => r == Err::<(), NonceVerifyErrors>(e) && *final(ctx) == *old(ctx),
        },
        r is Ok ==> final(ctx).user_business_nonce.lamports == 0 && final(ctx).user_business_nonce.data is None && final(ctx).nonce_user.lamports == old(ctx).nonce_user.lamports + old(ctx).user_business_nonce.lamports,
{
    match ctx.user_business_nonce.data {
        None => Err(NonceVerifyErrors::AccountNotInitialized),
        Some(record) => {
            if !record.nonce_user.same(&ctx.nonce_user.key) {
                return Err(NonceVerifyErrors::ConstraintHasOne);
            }
            let balance = ctx.user_business_nonce.lamports;
            match transfer(balance, ctx.nonce_user.lamports, balance) {
                Err(e) => Err(NonceVerifyErrors::from_transfer(e)),
                Ok((left, user)) => {
                    ctx.nonce_user.lamports = user;
                    ctx.user_business_nonce.lamports = left;
                    ctx.user_business_nonce.data = None;
                    Ok(())
                },
            }
        },
    }
}

} // verus!
