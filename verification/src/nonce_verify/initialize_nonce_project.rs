//! The nonce project: the service record that fixes fees, vault and the
//! admin gate, and its creation.

use crate::address::{check_seeds, is_derived_from, seeds_of_one, tag_bytes, Address};
use crate::nonce_verify::constants::{NONCE_PROJECT_SEED, NONCE_VAULT_ACCOUNT_SEED};
use crate::nonce_verify::errors::{transfer_failure, NonceVerifyErrors};
use crate::programs::{nonce_verify_program, program, NONCE_VERIFY_ID};
use crate::runtime::{transfer, transfer_outcome, AccountSlot, Signer, SystemAccount};
use vstd::prelude::*;

verus! {

/// The record of a nonce service.
#[derive(Clone, Copy, Debug, PartialEq, Eq)]
pub struct NonceProject {
    /// The identifier that the service was created for.
    pub project_id: Address,
    /// The admin, whose signature registration asks for where
    /// `register_business_need_verify` is set.
    pub nonce_project_admin: Address,
    /// The account that collects the fees; it holds no data.
    pub nonce_vault_account: Address,
    /// Whether registering a business needs the admin's signature.
    pub register_business_need_verify: bool,
    /// Lamports charged for registering a business.
    pub business_fee: u32,
    /// Lamports charged for each consumed nonce.
    pub user_fee: u32,
}

/// Whether registration is open or gated by an admin's signature.
#[derive(Clone, Copy, Debug, PartialEq, Eq)]
pub enum AdminGate {
    NoAdmin,
    RequireSignature(Address),
}

impl NonceProject {
    /// The admin gate of the service.
    pub open spec fn admin_gate(self) -> AdminGate {
        if self.register_business_need_verify {
            AdminGate::RequireSignature(self.nonce_project_admin)
        } else {
            AdminGate::NoAdmin
        }
    }

    /// The admin gate of the service.
    pub fn gate(&self) -> (g: AdminGate)
        ensures
            g == self.admin_gate(),
    {
        if self.register_business_need_verify {
            AdminGate::RequireSignature(self.nonce_project_admin)
        } else {
            AdminGate::NoAdmin
        }
    }
}

/// The seeds of a nonce project's address.
pub open spec fn nonce_project_seeds(project_id: Address) -> Seq<Seq<u8>> {
    seq![tag_bytes(NONCE_PROJECT_SEED), project_id@]
}

/// The seeds of the address of a nonce project's vault.
pub open spec fn nonce_vault_seeds(project_id: Address) -> Seq<Seq<u8>> {
    seq![tag_bytes(NONCE_VAULT_ACCOUNT_SEED), project_id@]
}

/// The accounts of `initialize_nonce_project`.
#[derive(Clone, Copy, Debug, PartialEq, Eq)]
pub struct InitializeNonceProjectAccounts {
    /// Pays the vault's first funding.
    pub payer: Signer,
    /// The admin of the new service.
    pub nonce_project_admin: Signer,
    /// Where the service record is created.
    pub nonce_project: AccountSlot<NonceProject>,
    /// The vault of the new service.
    pub nonce_vault_account: SystemAccount,
    /// The balance that keeps an account without data alive, as the
    /// environment reports it.
    pub vault_rent_exemption: u64,
}

/// The arguments of `initialize_nonce_project`.
#[derive(Clone, Copy, Debug, PartialEq, Eq)]
pub struct InitializeNonceProjectParams {
    pub project_id: Address,
    pub register_business_need_verify: bool,
    pub business_fee: u32,
    pub user_fee: u32,
}

/// The record that `initialize_nonce_project` writes.
pub open spec fn new_nonce_project(
    pre: InitializeNonceProjectAccounts,
    params: InitializeNonceProjectParams,
) -> NonceProject {
    NonceProject {
        project_id: params.project_id,
        nonce_project_admin: pre.nonce_project_admin.key,
        nonce_vault_account: pre.nonce_vault_account.key,
        register_business_need_verify: params.register_business_need_verify,
        business_fee: params.business_fee,
        user_fee: params.user_fee,
    }
}

/// What `initialize_nonce_project` does: the accounts after it, or the
/// failure. The checks come in this order: the address of the record, that
/// no record is there yet, the address of the vault, the vault's funding.
pub open spec fn initialize_nonce_project_outcome(
    pre: InitializeNonceProjectAccounts,
    params: InitializeNonceProjectParams,
) -> Result<InitializeNonceProjectAccounts, NonceVerifyErrors> {
    if !is_derived_from(
        pre.nonce_project.key,
        nonce_project_seeds(params.project_id),
        program(NONCE_VERIFY_ID),
    ) {
        Err(NonceVerifyErrors::ConstraintSeeds)
    } else if pre.nonce_project.data is Some {
        Err(NonceVerifyErrors::AlreadyExists)
    } else if !is_derived_from(
        pre.nonce_vault_account.key,
        nonce_vault_seeds(params.project_id),
        program(NONCE_VERIFY_ID),
    ) {
        Err(NonceVerifyErrors::ConstraintSeeds)
    } else {
        match transfer_outcome(
            pre.payer.lamports,
            pre.nonce_vault_account.lamports,
            pre.vault_rent_exemption,
        ) {
            Err(e) => Err(transfer_failure(e)),
            Ok((payer, vault)) => Ok(
                InitializeNonceProjectAccounts {
                    payer: Signer { lamports: payer, ..pre.payer },
                    nonce_vault_account: SystemAccount { lamports: vault, ..pre.nonce_vault_account },
                    nonce_project: AccountSlot {
                        data: Some(new_nonce_project(pre, params)),
                        ..pre.nonce_project
                    },
                    ..pre
                },
            ),
        }
    }
}

/// Creates the record of a nonce service and funds its vault with the
/// balance that keeps it alive.
pub fn initialize_nonce_project(
    ctx: &mut InitializeNonceProjectAccounts,
    params: InitializeNonceProjectParams,
) -> (r: Result<(), NonceVerifyErrors>)
    ensures
        match initialize_nonce_project_outcome(*old(ctx), params) {
            Ok(post) => r is Ok && *final(ctx) == post,
            Err(e) => r == Err::<(), NonceVerifyErrors>(e) && *final(ctx) == *old(ctx),
        },
{
    let program_id = nonce_verify_program();
    let record_seeds = seeds_of_one(NONCE_PROJECT_SEED, &params.project_id);
    if check_seeds(&ctx.nonce_project.key, &record_seeds, &program_id).is_none() {
        return Err(NonceVerifyErrors::ConstraintSeeds);
    }
    if ctx.nonce_project.data.is_some() {
        return Err(NonceVerifyErrors::AlreadyExists);
    }
    let vault_seeds = seeds_of_one(NONCE_VAULT_ACCOUNT_SEED, &params.project_id);
    if check_seeds(&ctx.nonce_vault_account.key, &vault_seeds, &program_id).is_none() {
        return Err(NonceVerifyErrors::ConstraintSeeds);
    }
    match transfer(ctx.payer.lamports, ctx.nonce_vault_account.lamports, ctx.vault_rent_exemption) {
        Err(e) => Err(NonceVerifyErrors::from_transfer(e)),
        Ok((payer, vault)) => {
            ctx.nonce_project.data = Some(
                NonceProject {
                    project_id: params.project_id,
                    nonce_project_admin: ctx.nonce_project_admin.key,
                    nonce_vault_account: ctx.nonce_vault_account.key,
                    register_business_need_verify: params.register_business_need_verify,
                    business_fee: params.business_fee,
                    user_fee: params.user_fee,
                },
            );
            ctx.payer.lamports = payer;
            ctx.nonce_vault_account.lamports = vault;
            Ok(())
        },
    }
}

} // verus!
