//! Handing the mint authority on once the airdrop is over.

use crate::address::{check_seeds, is_derived_from, seeds_of_two, Address};
use crate::programs::{program, solana_airdrop_program, SOLANA_AIRDROP_ID};
use crate::runtime::{
    set_mint_authority, set_mint_authority_outcome, Account, AccountInfo, Mint, Signer,
};
use crate::solana_airdrop::claim_ft::mint_authority_seeds;
use crate::solana_airdrop::constants::AIRDROP_MINT_AUTHORITY_SEED;
use crate::solana_airdrop::errors::AirdropErrors;
use crate::solana_airdrop::initialize_airdrop::AirdropProject;
use vstd::prelude::*;

verus! {

/// The accounts of `transfer_mint_authority`.
#[derive(Clone, Copy, Debug, PartialEq, Eq)]
pub struct TransferMintAuthAccounts {
    /// The admin of the project, who signs.
    pub airdrop_project_admin: Signer,
    /// The project.
    pub airdrop_project: Account<AirdropProject>,
    /// The mint whose authority is handed on.
    pub mint: Account<Mint>,
    /// The authority that the service derived for project and mint.
    pub mint_authority: AccountInfo,
}

/// The arguments of `transfer_mint_authority`.
#[derive(Clone, Copy, Debug, PartialEq, Eq)]
pub struct TransferMintAuthParams {
    /// The authority that takes over.
    pub new_mint_authority: Address,
}

/// What `transfer_mint_authority` does: the accounts after it, or the
/// failure.
pub open spec fn transfer_mint_authority_outcome(
    pre: TransferMintAuthAccounts,
    params: TransferMintAuthParams,
) -> Result<TransferMintAuthAccounts, AirdropErrors> {
    if pre.airdrop_project.data.airdrop_project_admin != pre.airdrop_project_admin.key {
        Err(AirdropErrors::ConstraintHasOne)
    } else if !is_derived_from(
        pre.mint_authority.key,
        mint_authority_seeds(pre.airdrop_project.key, pre.mint.key),
        program(SOLANA_AIRDROP_ID),
    ) {
        Err(AirdropErrors::ConstraintSeeds)
    } else {
        match set_mint_authority_outcome(
            pre.mint,
            pre.mint_authority.key,
            params.new_mint_authority,
        ) {
            Err(e) => Err(AirdropErrors::Token(e)),
            Ok(mint) => Ok(TransferMintAuthAccounts { mint, ..pre }),
        }
    }
}

/// Hands the authority over the mint from the service's derived authority
/// to `params.new_mint_authority`, on the signature of the project's admin.
pub fn transfer_mint_authority(ctx: &mut TransferMintAuthAccounts, params: TransferMintAuthParams) -> (r:
    Result<(), AirdropErrors>)
    ensures
        match transfer_mint_authority_outcome(*old(ctx), params) {
            Ok(post) => r is Ok && *final(ctx) == post,
            Err(e) => r == Err::<(), AirdropErrors>(e) && *final(ctx) == *old(ctx),
        },
{
    if !ctx.airdrop_project.data.airdrop_project_admin.same(&ctx.airdrop_project_admin.key) {
        return Err(AirdropErrors::ConstraintHasOne);
    }
    let program_id = solana_airdrop_program();
    let seeds = seeds_of_two(AIRDROP_MINT_AUTHORITY_SEED, &ctx.airdrop_project.key, &ctx.mint.key);
    if check_seeds(&ctx.mint_authority.key, &seeds, &program_id).is_none() {
        return Err(AirdropErrors::ConstraintSeeds);
    }
    let authority = Signer { key: ctx.mint_authority.key, lamports: ctx.mint_authority.lamports };
    match set_mint_authority(ctx.mint, &authority, params.new_mint_authority) {
        Err(e) => Err(AirdropErrors::Token(e)),
        Ok(mint) => {
            ctx.mint = mint;
            Ok(())
        },
    }
}

} // verus!
