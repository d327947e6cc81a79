//! Changing the admin or the fee of the manage project.

use crate::address::{check_seeds, is_derived_from, seeds_of_tag, Address};
use crate::direct_distribute_airdrop::constants::DIRECT_DISTRIBUTE_AIRDROP_MANAGER_SEED;
use crate::direct_distribute_airdrop::errors::DirectDistributeAirdropErrors;
use crate::direct_distribute_airdrop::init_singleton_manage_project::{
    manager_seeds, SingletonManageProject,
};
use crate::programs::{direct_distribute_airdrop_program, program, DIRECT_DISTRIBUTE_AIRDROP_ID};
use crate::runtime::{Account, Signer};
use vstd::prelude::*;

verus! {

/// The accounts of `update_singleton_manage_project`.
#[derive(Clone, Copy, Debug, PartialEq, Eq)]
pub struct UpdateSingletonManageProjectAccounts {
    /// The admin of the project, who signs.
    pub manage_admin: Signer,
    /// The manage project.
    pub singlton_manage_project: Account<SingletonManageProject>,
}

/// The arguments of `update_singleton_manage_project`.
#[derive(Clone, Copy, Debug, PartialEq, Eq)]
pub struct UpdateSingletonManageProjectParams {
    /// The admin that takes over, if any.
    pub new_manage_admin: Option<Address>,
    /// The new fee, if any.
    pub new_user_fee: Option<u32>,
}

/// The record after an update: each field that the arguments name is
/// replaced, the others stay.
pub open spec fn updated_manage_project(
    record: SingletonManageProject,
    params: UpdateSingletonManageProjectParams,
) -> SingletonManageProject {
    SingletonManageProject {
        manage_admin: match params.new_manage_admin {
            Some(admin) => admin,
            None => record.manage_admin,
        },
        user_fee: match params.new_user_fee {
            Some(fee) => fee,
            None => record.user_fee,
        },
        ..record
    }
}

/// What `update_singleton_manage_project` does: the accounts after it, or
/// the failure.
pub open spec fn update_singleton_manage_project_outcome(
    pre: UpdateSingletonManageProjectAccounts,
    params: UpdateSingletonManageProjectParams,
) -> Result<UpdateSingletonManageProjectAccounts, DirectDistributeAirdropErrors> {
    if !is_derived_from(
        pre.singlton_manage_project.key,
        manager_seeds(),
        program(DIRECT_DISTRIBUTE_AIRDROP_ID),
    ) {
        Err(DirectDistributeAirdropErrors::ConstraintSeeds)
    } else if pre.singlton_manage_project.data.manage_admin != pre.manage_admin.key {
        Err(DirectDistributeAirdropErrors::ConstraintHasOne)
    } else {
        Ok(
            UpdateSingletonManageProjectAccounts {
                singlton_manage_project: Account {
                    data: updated_manage_project(pre.singlton_manage_project.data, params),
                    ..pre.singlton_manage_project
                },
                ..pre
            },
        )
    }
}

/// Sets the admin, the fee, or both, on the signature of the current admin.
pub fn update_singleton_manage_project(
    ctx: &mut UpdateSingletonManageProjectAccounts,
    params: UpdateSingletonManageProjectParams,
) -> (r: Result<(), DirectDistributeAirdropErrors>)
    ensures
        match update_singleton_manage_project_outcome(*old(ctx), params) {
            Ok(post) => r is Ok && *final(ctx) == post,
            Err(e) => r == Err::<(), DirectDistributeAirdropErrors>(e) && *final(ctx) == *old(ctx),
        },
{
    let program_id = direct_distribute_airdrop_program();
    let seeds = seeds_of_tag(DIRECT_DISTRIBUTE_AIRDROP_MANAGER_SEED);
    if check_seeds(&ctx.singlton_manage_project.key, &seeds, &program_id).is_none() {
        return Err(DirectDistributeAirdropErrors::ConstraintSeeds);
    }
    if !ctx.singlton_manage_project.data.manage_admin.same(&ctx.manage_admin.key) {
        return Err(DirectDistributeAirdropErrors::ConstraintHasOne);
    }
    if let Some(new_manage_admin) = params.new_manage_admin {
        ctx.singlton_manage_project.data.manage_admin = new_manage_admin;
    }
    if let Some(new_user_fee) = params.new_user_fee {
        ctx.singlton_manage_project.data.user_fee = new_user_fee;
    }
    Ok(())
}

/// The instruction under the name by which the service offers it.
pub fn update_manager_singleton_project(
    ctx: &mut UpdateSingletonManageProjectAccounts,
    params: UpdateSingletonManageProjectParams,
) -> (r: Result<(), DirectDistributeAirdropErrors>)
    ensures
        match update_singleton_manage_project_outcome(*old(ctx), params) {
            Ok(post) => r is Ok && *final(ctx) == post,
            Err(e) => r == Err::<(), DirectDistributeAirdropErrors>(e) && *final(ctx) == *old(ctx),
        },
{
    update_singleton_manage_project(ctx, params)
}

} // verus!
