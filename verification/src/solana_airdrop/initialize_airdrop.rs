//! The airdrop project: the record that names the key whose signature
//! authorizes claims.

use crate::address::{check_seeds, is_derived_from, seeds_of_one, tag_bytes, Address};
use crate::programs::{program, solana_airdrop_program, SOLANA_AIRDROP_ID};
use crate::runtime::AccountSlot;
use crate::solana_airdrop::constants::AIRDROP_PROJECT_SEED;
use crate::solana_airdrop::errors::AirdropErrors;
use vstd::prelude::*;

verus! {

/// The record of an airdrop project.
#[derive(Clone, Copy, Debug, PartialEq, Eq)]
pub struct AirdropProject {
    /// The identifier of the project.
    pub airdrop_project_id: Address,
    /// The key that signs every claim of the project off-chain.
    pub airdrop_project_admin: Address,
}

/// The seeds of an airdrop project's address.
pub open spec fn airdrop_project_seeds(project_id: Address) -> Seq<Seq<u8>> {
    seq![tag_bytes(AIRDROP_PROJECT_SEED), project_id@]
}

/// The accounts of `initialize_airdrop`.
#[derive(Clone, Copy, Debug, PartialEq, Eq)]
pub struct InitializeAirdropProjectAccounts {
    /// Where the project is created.
    pub airdrop_project: AccountSlot<AirdropProject>,
}

/// The arguments of `initialize_airdrop`.
#[derive(Clone, Copy, Debug, PartialEq, Eq)]
pub struct InitializeAirdropProjectParams {
    /// The identifier of the project.
    pub project_id: Address,
    /// The key that signs the project's claims.
    pub project_admin: Address,
}

/// What `initialize_airdrop` does: the accounts after it, or the failure.
pub open spec fn initialize_airdrop_outcome(
    pre: InitializeAirdropProjectAccounts,
    params: InitializeAirdropProjectParams,
) -> Result<InitializeAirdropProjectAccounts, AirdropErrors> {
    if !is_derived_from(
        pre.airdrop_project.key,
        airdrop_project_seeds(params.project_id),
        program(SOLANA_AIRDROP_ID),
    ) {
        Err(AirdropErrors::ConstraintSeeds)
    } else if pre.airdrop_project.data is Some {
        Err(AirdropErrors::AlreadyExists)
    } else {
        Ok(
            InitializeAirdropProjectAccounts {
                airdrop_project: AccountSlot {
                    data: Some(
                        AirdropProject {
                            airdrop_project_id: params.project_id,
                            airdrop_project_admin: params.project_admin,
                        },
                    ),
                    ..pre.airdrop_project
                },
            },
        )
    }
}

/// Creates an airdrop project.
pub fn initialize_airdrop(
    ctx: &mut InitializeAirdropProjectAccounts,
    params: InitializeAirdropProjectParams,
) -> (r: Result<(), AirdropErrors>)
    ensures
        match initialize_airdrop_outcome(*old(ctx), params) {
            Ok(post) => r is Ok && *final(ctx) == post,
            Err(e) => r == Err::<(), AirdropErrors>(e) && *final(ctx) == *old(ctx),
        },
{
    let program_id = solana_airdrop_program();
    let seeds = seeds_of_one(AIRDROP_PROJECT_SEED, &params.project_id);
    if check_seeds(&ctx.airdrop_project.key, &seeds, &program_id).is_none() {
        return Err(AirdropErrors::ConstraintSeeds);
    }
    if ctx.airdrop_project.data.is_some() {
        return Err(AirdropErrors::AlreadyExists);
    }
    ctx.airdrop_project.data = Some(
        AirdropProject {
            airdrop_project_id: params.project_id,
            airdrop_project_admin: params.project_admin,
        },
    );
    Ok(())
}

} // verus!
