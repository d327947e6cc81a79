//! Changing the admin of a direct distribution project.

use crate::address::Address;
use crate::direct_distribute_airdrop::errors::DirectDistributeAirdropErrors;
use crate::direct_distribute_airdrop::init_dda_airdrop_project::DdaAirdropProject;
use crate::runtime::{Account, Signer};
use vstd::prelude::*;

verus! {

/// The accounts of `update_dda_airdrop_project`.
#[derive(Clone, Copy, Debug, PartialEq, Eq)]
pub struct UpdateDdaAirdropProjectAccounts {
    /// The admin of the project, who signs.
    pub dda_airdrop_admin: Signer,
    /// The project.
    pub dda_airdrop_project: Account<DdaAirdropProject>,
}

/// The arguments of `update_dda_airdrop_project`.
#[derive(Clone, Copy, Debug, PartialEq, Eq)]
pub struct UpdateDdaAirdropProjectParams {
    /// The admin that takes over.
    pub new_airdrop_admin: Address,
}

/// What `update_dda_airdrop_project` does: the accounts after it, or the
/// failure.
pub open spec fn update_dda_airdrop_project_outcome(
    pre: UpdateDdaAirdropProjectAccounts,
    params: UpdateDdaAirdropProjectParams,
) -> Result<UpdateDdaAirdropProjectAccounts, DirectDistributeAirdropErrors> {
    if pre.dda_airdrop_project.data.dda_airdrop_admin != pre.dda_airdrop_admin.key {
        Err(DirectDistributeAirdropErrors::ConstraintHasOne)
    } else {
        Ok(
            UpdateDdaAirdropProjectAccounts {
                dda_airdrop_project: Account {
                    data: DdaAirdropProject { dda_airdrop_admin: params.new_airdrop_admin },
                    ..pre.dda_airdrop_project
                },
                ..pre
            },
        )
    }
}

/// Hands the project to a new admin, on the signature of the current one.
pub fn update_dda_airdrop_project(
    ctx: &mut UpdateDdaAirdropProjectAccounts,
    params: UpdateDdaAirdropProjectParams,
) -> (r: Result<(), DirectDistributeAirdropErrors>)
    ensures
        match update_dda_airdrop_project_outcome(*old(ctx), params) {
            Ok(post) => r is Ok && *final(ctx) == post,
            Err(e) => r == Err::<(), DirectDistributeAirdropErrors>(e) && *final(ctx) == *old(ctx),
        },
{
    if !ctx.dda_airdrop_project.data.dda_airdrop_admin.same(&ctx.dda_airdrop_admin.key) {
        return Err(DirectDistributeAirdropErrors::ConstraintHasOne);
    }
    ctx.dda_airdrop_project.data.dda_airdrop_admin = params.new_airdrop_admin;
    Ok(())
}

} // verus!
