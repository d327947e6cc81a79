//! Taking collected fees out of a nonce service's vault.

use crate::address::{check_seeds, is_derived_from, seeds_of_one};
use crate::nonce_verify::constants::NONCE_VAULT_ACCOUNT_SEED;
use crate::nonce_verify::errors::{transfer_failure, NonceVerifyErrors};
use crate::nonce_verify::initialize_nonce_project::{nonce_vault_seeds, NonceProject};
use crate::programs::{nonce_verify_program, program, NONCE_VERIFY_ID};
use crate::runtime::{transfer, transfer_outcome, Account, AccountInfo, Signer, SystemAccount};
use vstd::prelude::*;

verus! {

/// The accounts of `claim_nonce_fee`.
#[derive(Clone, Copy, Debug, PartialEq, Eq)]
pub struct ClaimNonceFeeAccounts {
    /// Receives the fees.
    pub receiver: AccountInfo,
    /// The admin of the nonce service, who signs.
    pub nonce_project_admin: Signer,
    /// The nonce service.
    pub nonce_project: Account<NonceProject>,
    /// The vault that the fees are taken from.
    pub nonce_vault_account: SystemAccount,
}

/// The arguments of `claim_nonce_fee`.
#[derive(Clone, Copy, Debug, PartialEq, Eq)]
pub struct ClaimNonceFeeParams {
    /// Lamports to take out.
    pub amount: u64,
}

/// What `claim_nonce_fee` does: the accounts after it, or the failure. The
/// signer must be the admin that the service names and the vault the one
/// derived for the service.
pub open spec fn claim_nonce_fee_outcome(
    pre: ClaimNonceFeeAccounts,
    params: ClaimNonceFeeParams,
) -> Result<ClaimNonceFeeAccounts, NonceVerifyErrors> {
    if pre.nonce_project.data.nonce_project_admin != pre.nonce_project_admin.key {
        Err(NonceVerifyErrors::ConstraintHasOne)
    } else if !is_derived_from(
        pre.nonce_vault_account.key,
        nonce_vault_seeds(pre.nonce_project.data.project_id),
        program(NONCE_VERIFY_ID),
    ) {
        Err(NonceVerifyErrors::ConstraintSeeds)
    } else {
        match transfer_outcome(
            pre.nonce_vault_account.lamports,
            pre.receiver.lamports,
            params.amount,
        ) {
            Err(e) => Err(transfer_failure(e)),
            Ok((vault, receiver)) => Ok(
                ClaimNonceFeeAccounts {
                    receiver: AccountInfo { lamports: receiver, ..pre.receiver },
                    nonce_vault_account: SystemAccount {
                        lamports: vault,
                        ..pre.nonce_vault_account
                    },
                    ..pre
                },
            ),
        }
    }
}

/// Moves `params.amount` lamports from the vault of a nonce service to the
/// receiver, on the admin's signature.
pub fn claim_nonce_fee(ctx: &mut ClaimNonceFeeAccounts, params: ClaimNonceFeeParams) -> (r: Result<
    (),
    NonceVerifyErrors,
>)
    ensures
        match claim_nonce_fee_outcome(*old(ctx), params) {
            Ok(post) => r is Ok && *final(ctx) == post,
            Err(e) => r == Err::<(), NonceVerifyErrors>(e) && *final(ctx) == *old(ctx),
        },
{
    if !ctx.nonce_project.data.nonce_project_admin.same(&ctx.nonce_project_admin.key) {
        return Err(NonceVerifyErrors::ConstraintHasOne);
    }
    let program_id = nonce_verify_program();
    let vault_seeds = seeds_of_one(NONCE_VAULT_ACCOUNT_SEED, &ctx.nonce_project.data.project_id);
    if check_seeds(&ctx.nonce_vault_account.key, &vault_seeds, &program_id).is_none() {
        return Err(NonceVerifyErrors::ConstraintSeeds);
    }
    match transfer(ctx.nonce_vault_account.lamports, ctx.receiver.lamports, params.amount) {
        Err(e) => Err(NonceVerifyErrors::from_transfer(e)),
        Ok((vault, receiver)) => {
            ctx.nonce_vault_account.lamports = vault;
            ctx.receiver.lamports = receiver;
            Ok(())
        },
    }
}

} // verus!
