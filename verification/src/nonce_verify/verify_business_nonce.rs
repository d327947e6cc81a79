//! Consuming a nonce: the check-and-increment that every authorization
//! passes through.

use crate::address::{check_seeds, is_derived_from, seeds_of_one, seeds_of_two};
use crate::nonce_verify::constants::{
    BUSINESS_PROJECT_SEED, NONCE_PROJECT_SEED, NONCE_VAULT_ACCOUNT_SEED, USER_BUSINESS_NONCE_SEED,
};
use crate::nonce_verify::errors::{transfer_failure, NonceVerifyErrors};
use crate::nonce_verify::init_user_business_nonce::{
    consume_outcome, user_business_nonce_seeds, UserBusinessNonceState,
};
use crate::nonce_verify::initialize_nonce_project::{
    nonce_project_seeds, nonce_vault_seeds, NonceProject,
};
use crate::nonce_verify::register_business_project::{business_project_seeds, BusinessProject};
use crate::programs::{nonce_verify_program, program, NONCE_VERIFY_ID};
use crate::runtime::{collect_fee, fee_outcome, Account, Signer, SystemAccount};
use vstd::prelude::*;

verus! {

/// The accounts of `verify_business_nonce`.
#[derive(Clone, Copy, Debug, PartialEq, Eq)]
pub struct VerifyBusinessNonceAccounts {
    /// Pays the fee of the use.
    pub user_fee_payer: Signer,
    /// The user whose nonce is consumed.
    pub nonce_user: Signer,
    /// The nonce record of the user under the business.
    pub user_business_nonce: Account<UserBusinessNonceState>,
    /// The authority of the business, which signs the call.
    pub business_project_authority: Signer,
    /// The business project.
    pub business_project: Account<BusinessProject>,
    /// The nonce service.
    pub nonce_project: Account<NonceProject>,
    /// The vault of the nonce service.
    pub nonce_vault_account: SystemAccount,
}

/// The arguments of `verify_business_nonce`.
#[derive(Clone, Copy, Debug, PartialEq, Eq)]
pub struct VerifyBusinessNonceParams {
    /// The nonce that the caller claims to be the current one.
    pub nonce_value: u32,
}

/// The first account constraint that a consumption breaks, if any. In this
/// order: the address of the nonce record, the address of the business
/// project, that the business names this nonce service and this authority,
/// the address of the nonce service, the address of the vault.
pub open spec fn verify_business_nonce_constraint(pre: VerifyBusinessNonceAccounts) -> Option<
    NonceVerifyErrors,
> {
    if !is_derived_from(
        pre.user_business_nonce.key,
        user_business_nonce_seeds(pre.business_project.key, pre.nonce_user.key),
        program(NONCE_VERIFY_ID),
    ) {
        Some(NonceVerifyErrors::ConstraintSeeds)
    } else if !is_derived_from(
        pre.business_project.key,
        business_project_seeds(pre.nonce_project.key, pre.business_project.data.business_project_id),
        program(NONCE_VERIFY_ID),
    ) {
        Some(NonceVerifyErrors::ConstraintSeeds)
    } else if pre.business_project.data.nonce_project != pre.nonce_project.key {
        Some(NonceVerifyErrors::ConstraintHasOne)
    } else if pre.business_project.data.business_project_authority
        != pre.business_project_authority.key {
        Some(NonceVerifyErrors::ConstraintHasOne)
    } else if !is_derived_from(
        pre.nonce_project.key,
        nonce_project_seeds(pre.nonce_project.data.project_id),
        program(NONCE_VERIFY_ID),
    ) {
        Some(NonceVerifyErrors::ConstraintSeeds)
    } else if !is_derived_from(
        pre.nonce_vault_account.key,
        nonce_vault_seeds(pre.nonce_project.data.project_id),
        program(NONCE_VERIFY_ID),
    ) {
        Some(NonceVerifyErrors::ConstraintSeeds)
    } else {
        None
    }
}

/// What `verify_business_nonce` does: the accounts after it with the new
/// nonce, or the failure. After the account constraints comes the fee, then
/// the nonce.
pub open spec fn verify_business_nonce_outcome(
    pre: VerifyBusinessNonceAccounts,
    params: VerifyBusinessNonceParams,
) -> Result<(VerifyBusinessNonceAccounts, u32), NonceVerifyErrors> {
    match verify_business_nonce_constraint(pre) {
        Some(e) => Err(e),
        None => match fee_outcome(
            pre.nonce_project.data.user_fee,
            pre.user_fee_payer.lamports,
            pre.nonce_vault_account.lamports,
        ) {
            Err(e) => Err(transfer_failure(e)),
            Ok((payer, vault)) => match consume_outcome(
                pre.user_business_nonce.data.nonce_value,
                params.nonce_value,
            ) {
                Err(e) => Err(e),
                Ok(next) => Ok(
                    (
                        VerifyBusinessNonceAccounts {
                            user_fee_payer: Signer { lamports: payer, ..pre.user_fee_payer },
                            nonce_vault_account: SystemAccount {
                                lamports: vault,
                                ..pre.nonce_vault_account
                            },
                            user_business_nonce: Account {
                                data: UserBusinessNonceState {
                                    nonce_value: next,
                                    ..pre.user_business_nonce.data
                                },
                                ..pre.user_business_nonce
                            },
                            ..pre
                        },
                        next,
                    ),
                ),
            },
        },
    }
}

/// Checks the account constraints of a consumption.
pub fn check_verify_business_nonce_accounts(ctx: &VerifyBusinessNonceAccounts) -> (r: Option<
    NonceVerifyErrors,
>)
    ensures
        r == verify_business_nonce_constraint(*ctx),
{
    let program_id = nonce_verify_program();
    let nonce_seeds = seeds_of_two(
        USER_BUSINESS_NONCE_SEED,
        &ctx.business_project.key,
        &ctx.nonce_user.key,
    );
    if check_seeds(&ctx.user_business_nonce.key, &nonce_seeds, &program_id).is_none() {
        return Some(NonceVerifyErrors::ConstraintSeeds);
    }
    let business_seeds = seeds_of_two(
        BUSINESS_PROJECT_SEED,
        &ctx.nonce_project.key,
        &ctx.business_project.data.business_project_id,
    );
    if check_seeds(&ctx.business_project.key, &business_seeds, &program_id).is_none() {
        return Some(NonceVerifyErrors::ConstraintSeeds);
    }
    if !ctx.business_project.data.nonce_project.same(&ctx.nonce_project.key) {
        return Some(NonceVerifyErrors::ConstraintHasOne);
    }
    if !ctx.business_project.data.business_project_authority.same(
        &ctx.business_project_authority.key,
    ) {
        return Some(NonceVerifyErrors::ConstraintHasOne);
    }
    let service_seeds = seeds_of_one(NONCE_PROJECT_SEED, &ctx.nonce_project.data.project_id);
    if check_seeds(&ctx.nonce_project.key, &service_seeds, &program_id).is_none() {
        return Some(NonceVerifyErrors::ConstraintSeeds);
    }
    let vault_seeds = seeds_of_one(NONCE_VAULT_ACCOUNT_SEED, &ctx.nonce_project.data.project_id);
    if check_seeds(&ctx.nonce_vault_account.key, &vault_seeds, &program_id).is_none() {
        return Some(NonceVerifyErrors::ConstraintSeeds);
    }
    None
}

/// Consumes the user's nonce for the business: charges the fee of the use,
/// checks the claimed nonce against the stored one and advances it by one.
/// Returns the new nonce.
///
/// With a fee of zero no balance changes. The stored nonce never goes down.
pub fn verify_business_nonce(
    ctx: &mut VerifyBusinessNonceAccounts,
    params: VerifyBusinessNonceParams,
) -> (r: Result<u32, NonceVerifyErrors>)
    ensures
        match verify_business_nonce_outcome(*old(ctx), params) {
            Ok((post, next)) => r == Ok::<u32, NonceVerifyErrors>(next) && *final(ctx) == post,
            Err(e) => r == Err::<u32, NonceVerifyErrors>(e) && *final(ctx) == *old(ctx),
        },
        final(ctx).user_business_nonce.data.nonce_value >= old(ctx).user_business_nonce.data.nonce_value,
        r matches Ok(next) ==> next == old(ctx).user_business_nonce.data.nonce_value + 1
            && params.nonce_value == old(ctx).user_business_nonce.data.nonce_value,
        r is Ok && old(ctx).nonce_project.data.user_fee == 0 ==> final(ctx).user_fee_payer == old(ctx).user_fee_payer && final(ctx).nonce_vault_account == old(ctx).nonce_vault_account,
{
    if let Some(e) = check_verify_business_nonce_accounts(ctx) {
        return Err(e);
    }
    match collect_fee(
        ctx.nonce_project.data.user_fee,
        ctx.user_fee_payer.lamports,
        ctx.nonce_vault_account.lamports,
    ) {
        Err(e) => Err(NonceVerifyErrors::from_transfer(e)),
        Ok((payer, vault)) => {
            let next = ctx.user_business_nonce.data.consume(params.nonce_value)?;
            ctx.user_fee_payer.lamports = payer;
            ctx.nonce_vault_account.lamports = vault;
            Ok(next)
        },
    }
}

} // verus!
