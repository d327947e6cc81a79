//! The nonce record of one user under one business, and its creation.
//!
//! A record is created by `init_user_business_nonce` and by nothing else:
//! consuming a nonce asks for a record that exists. A record that was closed
//! and is created again starts at zero like any new one.

use crate::address::{check_seeds, is_derived_from, seeds_of_two, tag_bytes, Address};
use crate::nonce_verify::constants::USER_BUSINESS_NONCE_SEED;
use crate::nonce_verify::errors::NonceVerifyErrors;
use crate::nonce_verify::register_business_project::BusinessProject;
use crate::programs::{nonce_verify_program, program, NONCE_VERIFY_ID};
use crate::runtime::{Account, AccountSlot, Signer};
use vstd::prelude::*;

verus! {

/// The nonce of one user under one business.
#[derive(Clone, Copy, Debug, PartialEq, Eq)]
pub struct UserBusinessNonceState {
    /// The counter: the number of authorizations consumed so far.
    pub nonce_value: u32,
    /// The business project that the counter belongs to.
    pub business_project: Address,
    /// The user that the counter belongs to, who alone may close it.
    pub nonce_user: Address,
}

/// What consuming `claim` does to a counter that stands at `current`: the
/// next counter, or the failure. Only a claim of the current value moves the
/// counter, and it moves by one.
pub open spec fn consume_outcome(current: u32, claim: u32) -> Result<u32, NonceVerifyErrors> {
    if current != claim {
        Err(NonceVerifyErrors::NonceValueNotMatch)
    } else if current == u32::MAX {
        Err(NonceVerifyErrors::NonceExhausted)
    } else {
        Ok((current + 1) as u32)
    }
}

impl UserBusinessNonceState {
    /// Checks `claim` against the counter and advances the counter by one.
    /// Returns the new counter.
    pub fn consume(&mut self, claim: u32) -> (r: Result<u32, NonceVerifyErrors>)
        ensures
            r == consume_outcome(old(self).nonce_value, claim),
            match r {
                Ok(next) => *final(self) == (UserBusinessNonceState {
                    nonce_value: next,
                    ..*old(self)
                }),
                Err(_) => *final(self) == *old(self),
            },
            final(self).nonce_value >= old(self).nonce_value,
    {
        if self.nonce_value != claim {
            return Err(NonceVerifyErrors::NonceValueNotMatch);
        }
        if self.nonce_value == u32::MAX {
            return Err(NonceVerifyErrors::NonceExhausted);
        }
        self.nonce_value = self.nonce_value + 1;
        Ok(self.nonce_value)
    }
}

/// The seeds of the address of a user's nonce record.
pub open spec fn user_business_nonce_seeds(business_project: Address, user: Address) -> Seq<
    Seq<u8>,
> {
    seq![tag_bytes(USER_BUSINESS_NONCE_SEED), business_project@, user@]
}

/// The accounts of `init_user_business_nonce`.
#[derive(Clone, Copy, Debug, PartialEq, Eq)]
pub struct InitUserBusinessNonceAccounts {
    /// The user, who signs for the record.
    pub nonce_user: Signer,
    /// Where the record is created.
    pub user_business_nonce: AccountSlot<UserBusinessNonceState>,
    /// The business project that the record belongs to.
    pub business_project: Account<BusinessProject>,
}

/// What `init_user_business_nonce` does: the accounts after it, or the
/// failure.
pub open spec fn init_user_business_nonce_outcome(pre: InitUserBusinessNonceAccounts) -> Result<
    InitUserBusinessNonceAccounts,
    NonceVerifyErrors,
> {
    if !is_derived_from(
        pre.user_business_nonce.key,
        user_business_nonce_seeds(pre.business_project.key, pre.nonce_user.key),
        program(NONCE_VERIFY_ID),
    ) {
        Err(NonceVerifyErrors::ConstraintSeeds)
    } else if pre.user_business_nonce.data is Some {
        Err(NonceVerifyErrors::AlreadyExists)
    } else {
        Ok(
            InitUserBusinessNonceAccounts {
                user_business_nonce: AccountSlot {
                    data: Some(
                        UserBusinessNonceState {
                            nonce_value: 0,
                            business_project: pre.business_project.key,
                            nonce_user: pre.nonce_user.key,
                        },
                    ),
                    ..pre.user_business_nonce
                },
                ..pre
            },
        )
    }
}

/// Creates the nonce record of a user under a business, with the counter at
/// zero. The user's signature suffices; the business authority is not asked.
pub fn init_user_business_nonce(ctx: &mut InitUserBusinessNonceAccounts) -> (r: Result<
    (),
    NonceVerifyErrors,
>)
    ensures
        match init_user_business_nonce_outcome(*old(ctx)) {
            Ok(post) => r is Ok && *final(ctx) == post,
            Err(e) => r == Err::<(), NonceVerifyErrors>(e) && *final(ctx) == *old(ctx),
        },
{
    let program_id = nonce_verify_program();
    let seeds = seeds_of_two(USER_BUSINESS_NONCE_SEED, &ctx.business_project.key, &ctx.nonce_user.key);
    if check_seeds(&ctx.user_business_nonce.key, &seeds, &program_id).is_none() {
        return Err(NonceVerifyErrors::ConstraintSeeds);
    }
    if ctx.user_business_nonce.data.is_some() {
        return Err(NonceVerifyErrors::AlreadyExists);
    }
    ctx.user_business_nonce.data = Some(
        UserBusinessNonceState {
            nonce_value: 0,
            business_project: ctx.business_project.key,
            nonce_user: ctx.nonce_user.key,
        },
    );
    Ok(())
}

} // verus!
