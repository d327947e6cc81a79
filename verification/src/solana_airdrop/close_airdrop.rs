//! Closing an airdrop project on its admin's signature.

use crate::runtime::{transfer, transfer_outcome, AccountInfo, AccountSlot, Signer};
use crate::solana_airdrop::errors::AirdropErrors;
use crate::solana_airdrop::initialize_airdrop::AirdropProject;
use vstd::prelude::*;

verus! {

/// The accounts of `close_airdrop`.
#[derive(Clone, Copy, Debug, PartialEq, Eq)]
pub struct CloseAirdropProjectAccounts {
    /// Receives the balance of the project; it need not sign.
    pub receiver: AccountInfo,
    /// The admin of the project, who signs.
    pub airdrop_project_admin: Signer,
    /// The project to close.
    pub airdrop_project: AccountSlot<AirdropProject>,
}

/// What `close_airdrop` does: the accounts after it, or the failure. The
/// project must exist and name the signer as its admin; its whole balance
/// then goes to the receiver and the project is gone.
pub open spec fn close_airdrop_outcome(pre: CloseAirdropProjectAccounts) -> Result<
    CloseAirdropProjectAccounts,
    AirdropErrors,
> {
    match pre.airdrop_project.data {
        None => Err(AirdropErrors::AccountNotInitialized),
        Some(record) => if record.airdrop_project_admin != pre.airdrop_project_admin.key {
            Err(AirdropErrors::ConstraintHasOne)
        } else {
            match transfer_outcome(
                pre.airdrop_project.lamports,
                pre.receiver.lamports,
                pre.airdrop_project.lamports,
            ) {
                Err(_) => Err(AirdropErrors::LamportOverflow),
                Ok((left, receiver)) => Ok(
                    CloseAirdropProjectAccounts {
                        receiver: AccountInfo { lamports: receiver, ..pre.receiver },
                        airdrop_project: AccountSlot {
                            lamports: left,
                            data: None,
                            ..pre.airdrop_project
                        },
                        ..pre
                    },
                ),
            }
        },
    }
}

/// Closes an airdrop project and hands its balance to the receiver.
pub fn close_airdrop(ctx: &mut CloseAirdropProjectAccounts) -> (r: Result<(), AirdropErrors>)
    ensures
        match close_airdrop_outcome(*old(ctx)) {
            Ok(post) => r is Ok && *final(ctx) == post,
            Err(e) => r == Err::<(), AirdropErrors>(e) && *final(ctx) == *old(ctx),
        },
        r is Ok ==> final(ctx).airdrop_project.lamports == 0 && final(ctx).receiver.lamports
            == old(ctx).receiver.lamports + old(ctx).airdrop_project.lamports,
{
    match ctx.airdrop_project.data {
        None => Err(AirdropErrors::AccountNotInitialized),
        Some(record) => {
            if !record.airdrop_project_admin.same(&ctx.airdrop_project_admin.key) {
                return Err(AirdropErrors::ConstraintHasOne);
            }
            let balance = ctx.airdrop_project.lamports;
            match transfer(balance, ctx.receiver.lamports, balance) {
                Err(_) => Err(AirdropErrors::LamportOverflow),
                Ok((left, receiver)) => {
                    ctx.receiver.lamports = receiver;
                    ctx.airdrop_project.lamports = left;
                    ctx.airdrop_project.data = None;
                    Ok(())
                },
            }
        },
    }
}

} // verus!
