//! The one manage project of the service: its admin, its fee and the
//! account that collects the fee.

use crate::address::{check_seeds, is_derived_from, seeds_of_tag, tag_bytes, Address};
use crate::direct_distribute_airdrop::constants::{
    DIRECT_DISTRIBUTE_AIRDROP_FEE_RECEIVER_SEED, DIRECT_DISTRIBUTE_AIRDROP_MANAGER_SEED,
};
use crate::direct_distribute_airdrop::errors::{transfer_failure, DirectDistributeAirdropErrors};
use crate::programs::{direct_distribute_airdrop_program, program, DIRECT_DISTRIBUTE_AIRDROP_ID};
use crate::runtime::{transfer, transfer_outcome, AccountSlot, Signer, SystemAccount};
use vstd::prelude::*;

verus! {

/// The record of the manage project.
#[derive(Clone, Copy, Debug, PartialEq, Eq)]
pub struct SingletonManageProject {
    /// Whether the project was initialized.
    pub inintialized: bool,
    /// The admin, whose signature taking out fees needs.
    pub manage_admin: Address,
    /// The account that collects the fees; it holds no data.
    pub fee_receiver: Address,
    /// Lamports charged for each receiver of a distribution.
    pub user_fee: u32,
}

/// The seeds of the manage project's address.
pub open spec fn manager_seeds() -> Seq<Seq<u8>> {
    seq![tag_bytes(DIRECT_DISTRIBUTE_AIRDROP_MANAGER_SEED)]
}

/// The seeds of the fee receiver's address.
pub open spec fn fee_receiver_seeds() -> Seq<Seq<u8>> {
    seq![tag_bytes(DIRECT_DISTRIBUTE_AIRDROP_FEE_RECEIVER_SEED)]
}

/// The accounts of `init_singleton_manage_project`.
#[derive(Clone, Copy, Debug, PartialEq, Eq)]
pub struct InitSingletonManageProjectAccounts {
    /// Pays the fee receiver's first funding.
    pub payer: Signer,
    /// The admin of the project.
    pub manage_admin: Signer,
    /// Where the project lives; it is created if it is not there.
    pub singlton_manage_project: AccountSlot<SingletonManageProject>,
    /// The account that collects the fees.
    pub fee_receiver: SystemAccount,
    /// The balance that keeps an account without data alive, as the
    /// environment reports it.
    pub fee_receiver_rent_exemption: u64,
}

/// The arguments of `init_singleton_manage_project`.
#[derive(Clone, Copy, Debug, PartialEq, Eq)]
pub struct InitSingletonManageProjectParams {
    /// Lamports charged for each receiver of a distribution.
    pub user_fee: u32,
}

/// Whether the slot holds a project that was initialized.
pub open spec fn is_initialized(slot: AccountSlot<SingletonManageProject>) -> bool {
    slot.data matches Some(project) && project.inintialized
}

/// What `init_singleton_manage_project` does: the accounts after it, or the
/// failure. The checks come in this order: the addresses of project and fee
/// receiver, that the project is not initialized yet, the fee receiver's
/// funding.
pub open spec fn init_singleton_manage_project_outcome(
    pre: InitSingletonManageProjectAccounts,
    params: InitSingletonManageProjectParams,
) -> Result<InitSingletonManageProjectAccounts, DirectDistributeAirdropErrors> {
    if !is_derived_from(
        pre.singlton_manage_project.key,
        manager_seeds(),
        program(DIRECT_DISTRIBUTE_AIRDROP_ID),
    ) || !is_derived_from(
        pre.fee_receiver.key,
        fee_receiver_seeds(),
        program(DIRECT_DISTRIBUTE_AIRDROP_ID),
    ) {
        Err(DirectDistributeAirdropErrors::ConstraintSeeds)
    } else if is_initialized(pre.singlton_manage_project) {
        Err(DirectDistributeAirdropErrors::AlreadyInitialized)
    } else {
        match transfer_outcome(
            pre.payer.lamports,
            pre.fee_receiver.lamports,
            pre.fee_receiver_rent_exemption,
        ) {
            Err(e) => Err(transfer_failure(e)),
            Ok((payer, receiver)) => Ok(
                InitSingletonManageProjectAccounts {
                    payer: Signer { lamports: payer, ..pre.payer },
                    fee_receiver: SystemAccount { lamports: receiver, ..pre.fee_receiver },
                    singlton_manage_project: AccountSlot {
                        data: Some(
                            SingletonManageProject {
                                inintialized: true,
                                manage_admin: pre.manage_admin.key,
                                fee_receiver: pre.fee_receiver.key,
                                user_fee: params.user_fee,
                            },
                        ),
                        ..pre.singlton_manage_project
                    },
                    ..pre
                },
            ),
        }
    }
}

/// Initializes the one manage project of the service. It can be done once.
pub fn init_singleton_manage_project(
    ctx: &mut InitSingletonManageProjectAccounts,
    params: InitSingletonManageProjectParams,
) -> (r: Result<(), DirectDistributeAirdropErrors>)
    ensures
        match init_singleton_manage_project_outcome(*old(ctx), params) {
            Ok(post) => r is Ok && *final(ctx) == post,
            Err(e) => r == Err::<(), DirectDistributeAirdropErrors>(e) && *final(ctx) == *old(ctx),
        },
        is_initialized(old(ctx).singlton_manage_project) ==> r is Err,
        r is Ok ==> is_initialized(final(ctx).singlton_manage_project),
{
    let program_id = direct_distribute_airdrop_program();
    let project_seeds = seeds_of_tag(DIRECT_DISTRIBUTE_AIRDROP_MANAGER_SEED);
    if check_seeds(&ctx.singlton_manage_project.key, &project_seeds, &program_id).is_none() {
        return Err(DirectDistributeAirdropErrors::ConstraintSeeds);
    }
    let receiver_seeds = seeds_of_tag(DIRECT_DISTRIBUTE_AIRDROP_FEE_RECEIVER_SEED);
    if check_seeds(&ctx.fee_receiver.key, &receiver_seeds, &program_id).is_none() {
        return Err(DirectDistributeAirdropErrors::ConstraintSeeds);
    }
    let initialized = match ctx.singlton_manage_project.data {
        Some(project) => project.inintialized,
        None => false,
    };
    if initialized {
        return Err(DirectDistributeAirdropErrors::AlreadyInitialized);
    }
    match transfer(ctx.payer.lamports, ctx.fee_receiver.lamports, ctx.fee_receiver_rent_exemption) {
        Err(e) => Err(DirectDistributeAirdropErrors::from_transfer(e)),
        Ok((payer, receiver)) => {
            ctx.singlton_manage_project.data = Some(
                SingletonManageProject {
                    inintialized: true,
                    manage_admin: ctx.manage_admin.key,
                    fee_receiver: ctx.fee_receiver.key,
                    user_fee: params.user_fee,
                },
            );
            ctx.payer.lamports = payer;
            ctx.fee_receiver.lamports = receiver;
            Ok(())
        },
    }
}

} // verus!
