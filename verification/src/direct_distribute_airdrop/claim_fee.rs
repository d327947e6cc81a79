//! Taking collected fees out of the fee receiver.

use crate::address::{check_seeds, is_derived_from, seeds_of_tag};
use crate::direct_distribute_airdrop::constants::{
    DIRECT_DISTRIBUTE_AIRDROP_FEE_RECEIVER_SEED, DIRECT_DISTRIBUTE_AIRDROP_MANAGER_SEED,
};
use crate::direct_distribute_airdrop::errors::{transfer_failure, DirectDistributeAirdropErrors};
use crate::direct_distribute_airdrop::init_singleton_manage_project::{
    fee_receiver_seeds, manager_seeds, SingletonManageProject,
};
use crate::programs::{direct_distribute_airdrop_program, program, DIRECT_DISTRIBUTE_AIRDROP_ID};
use crate::runtime::{transfer, transfer_outcome, Account, Signer, SystemAccount};
use vstd::prelude::*;

verus! {

/// The accounts of `claim_fee`.
#[derive(Clone, Copy, Debug, PartialEq, Eq)]
pub struct ClaimFeeAccounts {
    /// Receives the fees.
    pub receiver: SystemAccount,
    /// The admin of the manage project, who signs.
    pub manage_admin: Signer,
    /// The manage project.
    pub singlton_manage_project: Account<SingletonManageProject>,
    /// The account that the fees are taken from.
    pub fee_receiver: SystemAccount,
}

/// The arguments of `claim_fee`.
#[derive(Clone, Copy, Debug, PartialEq, Eq)]
pub struct ClaimFeeParams {
    /// Lamports to take out.
    pub amount: u64,
}

/// The first account constraint that `claim_fee` breaks, if any.
pub open spec fn claim_fee_constraint(pre: ClaimFeeAccounts) -> Option<
    DirectDistributeAirdropErrors,
> {
    if !is_derived_from(
        pre.singlton_manage_project.key,
        manager_seeds(),
        program(DIRECT_DISTRIBUTE_AIRDROP_ID),
    ) {
        Some(DirectDistributeAirdropErrors::ConstraintSeeds)
    } else if pre.singlton_manage_project.data.manage_admin != pre.manage_admin.key
        || pre.singlton_manage_project.data.fee_receiver != pre.fee_receiver.key {
        Some(DirectDistributeAirdropErrors::ConstraintHasOne)
    } else if !is_derived_from(
        pre.fee_receiver.key,
        fee_receiver_seeds(),
        program(DIRECT_DISTRIBUTE_AIRDROP_ID),
    ) {
        Some(DirectDistributeAirdropErrors::ConstraintSeeds)
    } else {
        None
    }
}

/// What `claim_fee` does: the accounts after it, or the failure.
pub open spec fn claim_fee_outcome(pre: ClaimFeeAccounts, params: ClaimFeeParams) -> Result<
    ClaimFeeAccounts,
    DirectDistributeAirdropErrors,
> {
    match claim_fee_constraint(pre) {
        Some(e) => Err(e),
        None => match transfer_outcome(
            pre.fee_receiver.lamports,
            pre.receiver.lamports,
            params.amount,
        ) {
            Err(e) => Err(transfer_failure(e)),
            Ok((from, to)) => Ok(
                ClaimFeeAccounts {
                    receiver: SystemAccount { lamports: to, ..pre.receiver },
                    fee_receiver: SystemAccount { lamports: from, ..pre.fee_receiver },
                    ..pre
                },
            ),
        },
    }
}

/// Moves `params.amount` lamports from the fee receiver to the receiver, on
/// the admin's signature.
pub fn claim_fee(ctx: &mut ClaimFeeAccounts, params: ClaimFeeParams) -> (r: Result<
    (),
    DirectDistributeAirdropErrors,
>)
    ensures
        match claim_fee_outcome(*old(ctx), params) {
            Ok(post) => r is Ok && *final(ctx) == post,
            Err(e) => r == Err::<(), DirectDistributeAirdropErrors>(e) && *final(ctx) == *old(ctx),
        },
{
    let program_id = direct_distribute_airdrop_program();
    let project_seeds = seeds_of_tag(DIRECT_DISTRIBUTE_AIRDROP_MANAGER_SEED);
    if check_seeds(&ctx.singlton_manage_project.key, &project_seeds, &program_id).is_none() {
        return Err(DirectDistributeAirdropErrors::ConstraintSeeds);
    }
    if !ctx.singlton_manage_project.data.manage_admin.same(&ctx.manage_admin.key)
        || !ctx.singlton_manage_project.data.fee_receiver.same(&ctx.fee_receiver.key) {
        return Err(DirectDistributeAirdropErrors::ConstraintHasOne);
    }
    let receiver_seeds = seeds_of_tag(DIRECT_DISTRIBUTE_AIRDROP_FEE_RECEIVER_SEED);
    if check_seeds(&ctx.fee_receiver.key, &receiver_seeds, &program_id).is_none() {
        return Err(DirectDistributeAirdropErrors::ConstraintSeeds);
    }
    match transfer(ctx.fee_receiver.lamports, ctx.receiver.lamports, params.amount) {
        Err(e) => Err(DirectDistributeAirdropErrors::from_transfer(e)),
        Ok((from, to)) => {
            ctx.fee_receiver.lamports = from;
            ctx.receiver.lamports = to;
            Ok(())
        },
    }
}

} // verus!
