//! The fee project: a service record whose admin is optional.

use crate::address::{check_seeds, is_derived_from, seeds_of_one, tag_bytes, Address};
use crate::nonce_verify::constants::PROJECT_SEED;
use crate::nonce_verify::errors::NonceVerifyErrors;
use crate::nonce_verify::initialize_nonce_project::AdminGate;
use crate::programs::{nonce_verify_program, program, NONCE_VERIFY_ID};
use crate::runtime::{AccountInfo, AccountSlot, Signer};
use vstd::prelude::*;

verus! {

/// The record of a fee project.
#[derive(Clone, Copy, Debug, PartialEq, Eq)]
pub struct Project {
    /// The admin; where there is one, registering a business needs its
    /// signature.
    pub admin: Option<Address>,
    /// Lamports charged for registering a business.
    pub business_fee: u16,
    /// Lamports charged for each use.
    pub user_fee: u16,
}

impl Project {
    /// The admin gate of the project.
    pub open spec fn admin_gate(self) -> AdminGate {
        match self.admin {
            Some(admin) => AdminGate::RequireSignature(admin),
            None => AdminGate::NoAdmin,
        }
    }

    /// The admin gate of the project.
    pub fn gate(&self) -> (g: AdminGate)
        ensures
            g == self.admin_gate(),
    {
        match self.admin {
            Some(admin) => AdminGate::RequireSignature(admin),
            None => AdminGate::NoAdmin,
        }
    }
}

/// The seeds of a fee project's address.
pub open spec fn project_seeds(base: Address) -> Seq<Seq<u8>> {
    seq![tag_bytes(PROJECT_SEED), base@]
}

/// The accounts of `initialize_project`.
#[derive(Clone, Copy, Debug, PartialEq, Eq)]
pub struct InitializeProject {
    /// The base that the project is created for, which signs.
    pub base: Signer,
    /// The admin, where the project is to have one.
    pub admin: Option<AccountInfo>,
    /// Where the project is created.
    pub project: AccountSlot<Project>,
}

/// The arguments of `initialize_project`.
#[derive(Clone, Copy, Debug, PartialEq, Eq)]
pub struct InitializeProjectParams {
    pub business_fee: u16,
    pub user_fee: u16,
}

/// The address of the admin account, where one was given.
pub open spec fn admin_key(admin: Option<AccountInfo>) -> Option<Address> {
    match admin {
        Some(account) => Some(account.key),
        None => None,
    }
}

/// What `initialize_project` does: the accounts after it, or the failure.
pub open spec fn initialize_project_outcome(
    pre: InitializeProject,
    params: InitializeProjectParams,
) -> Result<InitializeProject, NonceVerifyErrors> {
    if !is_derived_from(pre.project.key, project_seeds(pre.base.key), program(NONCE_VERIFY_ID)) {
        Err(NonceVerifyErrors::ConstraintSeeds)
    } else if pre.project.data is Some {
        Err(NonceVerifyErrors::AlreadyExists)
    } else {
        Ok(
            InitializeProject {
                project: AccountSlot {
                    data: Some(
                        Project {
                            admin: admin_key(pre.admin),
                            business_fee: params.business_fee,
                            user_fee: params.user_fee,
                        },
                    ),
                    ..pre.project
                },
                ..pre
            },
        )
    }
}

/// Creates the one fee project of a base.
pub fn initialize_project(ctx: &mut InitializeProject, params: InitializeProjectParams) -> (r:
    Result<(), NonceVerifyErrors>)
    ensures
        match initialize_project_outcome(*old(ctx), params) {
            Ok(post) => r is Ok && *final(ctx) == post,
            Err(e) => r == Err::<(), NonceVerifyErrors>(e) && *final(ctx) == *old(ctx),
        },
{
    let program_id = nonce_verify_program();
    let seeds = seeds_of_one(PROJECT_SEED, &ctx.base.key);
    if check_seeds(&ctx.project.key, &seeds, &program_id).is_none() {
        return Err(NonceVerifyErrors::ConstraintSeeds);
    }
    if ctx.project.data.is_some() {
        return Err(NonceVerifyErrors::AlreadyExists);
    }
    let admin = match ctx.admin {
        Some(account) => Some(account.key),
        None => None,
    };
    ctx.project.data = Some(
        Project { admin, business_fee: params.business_fee, user_fee: params.user_fee },
    );
    Ok(())
}

} // verus!
