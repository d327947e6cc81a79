//! The project of one direct distribution.

use crate::address::Address;
use crate::direct_distribute_airdrop::errors::DirectDistributeAirdropErrors;
use crate::runtime::{AccountInfo, AccountSlot};
use vstd::prelude::*;

verus! {

/// The record of a direct distribution project.
#[derive(Clone, Copy, Debug, PartialEq, Eq)]
pub struct DdaAirdropProject {
    /// The admin, whose signature every change and every distribution needs.
    pub dda_airdrop_admin: Address,
}

/// The accounts of `init_dda_airdrop_project`.
#[derive(Clone, Copy, Debug, PartialEq, Eq)]
pub struct InitDdaAirdropProjectAccounts {
    /// The admin of the new project; it need not sign.
    pub airdrop_admin: AccountInfo,
    /// Where the project is created.
    pub dda_airdrop_project: AccountSlot<DdaAirdropProject>,
}

/// What `init_dda_airdrop_project` does: the accounts after it, or the
/// failure.
pub open spec fn init_dda_airdrop_project_outcome(pre: InitDdaAirdropProjectAccounts) -> Result<
    InitDdaAirdropProjectAccounts,
    DirectDistributeAirdropErrors,
> {
    if pre.dda_airdrop_project.data is Some {
        Err(DirectDistributeAirdropErrors::AlreadyExists)
    } else {
        Ok(
            InitDdaAirdropProjectAccounts {
                dda_airdrop_project: AccountSlot {
                    data: Some(DdaAirdropProject { dda_airdrop_admin: pre.airdrop_admin.key }),
                    ..pre.dda_airdrop_project
                },
                ..pre
            },
        )
    }
}

/// Creates a direct distribution project under the admin given.
pub fn init_dda_airdrop_project(ctx: &mut InitDdaAirdropProjectAccounts) -> (r: Result<
    (),
    DirectDistributeAirdropErrors,
>)
    ensures
        match init_dda_airdrop_project_outcome(*old(ctx)) {
            Ok(post) => r is Ok && *final(ctx) == post,
            Err(e) => r == Err::<(), DirectDistributeAirdropErrors>(e) && *final(ctx) == *old(ctx),
        },
{
    if ctx.dda_airdrop_project.data.is_some() {
        return Err(DirectDistributeAirdropErrors::AlreadyExists);
    }
    ctx.dda_airdrop_project.data = Some(
        DdaAirdropProject { dda_airdrop_admin: ctx.airdrop_admin.key },
    );
    Ok(())
}

} // verus!
