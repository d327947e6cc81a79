//! Handing the mint authority on once the distribution is over.

use crate::address::{check_seeds, is_derived_from, seeds_of_two, tag_bytes, Address};
use crate::direct_distribute_airdrop::constants::DIRECT_DISTRIBUTE_AIRDROP_MINT_AUTHORITY_SEED;
use crate::direct_distribute_airdrop::errors::DirectDistributeAirdropErrors;
use crate::direct_distribute_airdrop::init_dda_airdrop_project::DdaAirdropProject;
use crate::programs::{direct_distribute_airdrop_program, program, DIRECT_DISTRIBUTE_AIRDROP_ID};
use crate::runtime::{
    set_mint_authority, set_mint_authority_outcome, Account, AccountInfo, Mint, Signer,
};
use vstd::prelude::*;

verus! {

/// The seeds of the authority under which the service mints `mint` for
/// `project`.
pub open spec fn dda_mint_authority_seeds(project: Address, mint: Address) -> Seq<Seq<u8>> {
    seq![tag_bytes(DIRECT_DISTRIBUTE_AIRDROP_MINT_AUTHORITY_SEED), project@, mint@]
}

/// The accounts of `transfer_dda_mint_authority`.
#[derive(Clone, Copy, Debug, PartialEq, Eq)]
pub struct TransferMintAuthAccounts {
    /// The admin of the project, who signs.
    pub dda_airdrop_admin: Signer,
    /// The project.
    pub dda_airdrop_project: Account<DdaAirdropProject>,
    /// The mint whose authority is handed on.
    pub mint: Account<Mint>,
    /// The authority that the service derived for project and mint.
    pub mint_authority: AccountInfo,
    /// The authority that takes over.
    pub new_mint_authority: AccountInfo,
}

/// What `transfer_dda_mint_authority` does: the accounts after it, or the
/// failure.
pub open spec fn transfer_dda_mint_authority_outcome(pre: TransferMintAuthAccounts) -> Result<
    TransferMintAuthAccounts,
    DirectDistributeAirdropErrors,
> {
    if pre.dda_airdrop_project.data.dda_airdrop_admin != pre.dda_airdrop_admin.key {
        Err(DirectDistributeAirdropErrors::ConstraintHasOne)
    } else if !is_derived_from(
        pre.mint_authority.key,
        dda_mint_authority_seeds(pre.dda_airdrop_project.key, pre.mint.key),
        program(DIRECT_DISTRIBUTE_AIRDROP_ID),
    ) {
        Err(DirectDistributeAirdropErrors::ConstraintSeeds)
    } else {
        match set_mint_authority_outcome(
            pre.mint,
            pre.mint_authority.key,
            pre.new_mint_authority.key,
        ) {
            Err(e) => Err(DirectDistributeAirdropErrors::Token(e)),
            Ok(mint) => Ok(TransferMintAuthAccounts { mint, ..pre }),
        }
    }
}

/// Hands the authority over the mint from the service's derived authority
/// to the new one, on the signature of the project's admin.
pub fn transfer_dda_mint_authority(ctx: &mut TransferMintAuthAccounts) -> (r: Result<
    (),
    DirectDistributeAirdropErrors,
>)
    ensures
        match transfer_dda_mint_authority_outcome(*old(ctx)) {
            Ok(post) => r is Ok && *final(ctx) == post,
            Err(e) => r == Err::<(), DirectDistributeAirdropErrors>(e) && *final(ctx) == *old(ctx),
        },
{
    if !ctx.dda_airdrop_project.data.dda_airdrop_admin.same(&ctx.dda_airdrop_admin.key) {
        return Err(DirectDistributeAirdropErrors::ConstraintHasOne);
    }
    let program_id = direct_distribute_airdrop_program();
    let seeds = seeds_of_two(
        DIRECT_DISTRIBUTE_AIRDROP_MINT_AUTHORITY_SEED,
        &ctx.dda_airdrop_project.key,
        &ctx.mint.key,
    );
    if check_seeds(&ctx.mint_authority.key, &seeds, &program_id).is_none() {
        return Err(DirectDistributeAirdropErrors::ConstraintSeeds);
    }
    let authority = Signer { key: ctx.mint_authority.key, lamports: ctx.mint_authority.lamports };
    match set_mint_authority(ctx.mint, &authority, ctx.new_mint_authority.key) {
        Err(e) => Err(DirectDistributeAirdropErrors::Token(e)),
        Ok(mint) => {
            ctx.mint = mint;
            Ok(())
        },
    }
}

} // verus!
