//! The business registry: a business project ties a business identifier
//! to the authority that must co-sign every nonce it consumes.

use crate::address::{check_seeds, is_derived_from, seeds_of_one, seeds_of_two, tag_bytes, Address};
use crate::nonce_verify::constants::{BUSINESS_PROJECT_SEED, NONCE_PROJECT_SEED, NONCE_VAULT_ACCOUNT_SEED};
use crate::nonce_verify::errors::{transfer_failure, NonceVerifyErrors};
use crate::nonce_verify::initialize_nonce_project::{
    nonce_project_seeds, nonce_vault_seeds, AdminGate, NonceProject,
};
use crate::programs::{nonce_verify_program, program, NONCE_VERIFY_ID};
use crate::runtime::{collect_fee, fee_outcome, Account, AccountSlot, Signer, SystemAccount};
use vstd::prelude::*;

verus! {

/// The record of a business registered with a nonce service.
#[derive(Clone, Copy, Debug, PartialEq, Eq)]
pub struct BusinessProject {
    /// The identifier of the business.
    pub business_project_id: Address,
    /// The authority whose signature every consumption needs. It is stored
    /// as given and only checked when a nonce is consumed.
    pub business_project_authority: Address,
    /// The nonce service that the business is registered with.
    pub nonce_project: Address,
}

/// The seeds of a business project's address.
pub open spec fn business_project_seeds(nonce_project: Address, business_id: Address) -> Seq<
    Seq<u8>,
> {
    seq![tag_bytes(BUSINESS_PROJECT_SEED), nonce_project@, business_id@]
}

/// The accounts of `register_business_project`.
#[derive(Clone, Copy, Debug, PartialEq, Eq)]
pub struct RegisterBusinessProjectAccounts {
    /// Pays the registration fee.
    pub register_fee_payer: Signer,
    /// Where the business project is created.
    pub business_project: AccountSlot<BusinessProject>,
    /// The admin's signature, where one was given.
    pub nonce_project_admin: Option<Signer>,
    /// The nonce service.
    pub nonce_project: Account<NonceProject>,
    /// The vault of the nonce service.
    pub nonce_vault_account: SystemAccount,
}

/// The arguments of `register_business_project`.
#[derive(Clone, Copy, Debug, PartialEq, Eq)]
pub struct RegisterBusinessProjectParams {
    /// The identifier of the business.
    pub project_id: Address,
    /// The authority of the business.
    pub business_project_authority: Address,
}

/// Whether the admin gate lets a registration with this signature pass.
pub open spec fn admin_gate_passes(gate: AdminGate, admin: Option<Signer>) -> bool {
    match gate {
        AdminGate::NoAdmin => true,
        AdminGate::RequireSignature(required) => admin matches Some(signer) && signer.key
            == required,
    }
}

/// Whether every account of a registration has the address derived for it.
pub open spec fn register_addresses_match(
    pre: RegisterBusinessProjectAccounts,
    params: RegisterBusinessProjectParams,
) -> bool {
    &&& is_derived_from(
        pre.business_project.key,
        business_project_seeds(pre.nonce_project.key, params.project_id),
        program(NONCE_VERIFY_ID),
    )
    &&& is_derived_from(
        pre.nonce_project.key,
        nonce_project_seeds(pre.nonce_project.data.project_id),
        program(NONCE_VERIFY_ID),
    )
    &&& is_derived_from(
        pre.nonce_vault_account.key,
        nonce_vault_seeds(pre.nonce_project.data.project_id),
        program(NONCE_VERIFY_ID),
    )
}

/// What `register_business_project` does: the accounts after it, or the
/// failure. The checks come in this order: the addresses of the accounts,
/// the admin gate, the registration fee, that the business is not
/// registered yet.
pub open spec fn register_business_project_outcome(
    pre: RegisterBusinessProjectAccounts,
    params: RegisterBusinessProjectParams,
) -> Result<RegisterBusinessProjectAccounts, NonceVerifyErrors> {
    if !register_addresses_match(pre, params) {
        Err(NonceVerifyErrors::ConstraintSeeds)
    } else if !admin_gate_passes(pre.nonce_project.data.admin_gate(), pre.nonce_project_admin) {
        Err(NonceVerifyErrors::RunOutOfAdminSignature)
    } else {
        match fee_outcome(
            pre.nonce_project.data.business_fee,
            pre.register_fee_payer.lamports,
            pre.nonce_vault_account.lamports,
        ) {
            Err(e) => Err(transfer_failure(e)),
            Ok((payer, vault)) => if pre.business_project.data is Some {
                Err(NonceVerifyErrors::AlreadyExists)
            } else {
                Ok(
                    RegisterBusinessProjectAccounts {
                        register_fee_payer: Signer { lamports: payer, ..pre.register_fee_payer },
                        nonce_vault_account: SystemAccount {
                            lamports: vault,
                            ..pre.nonce_vault_account
                        },
                        business_project: AccountSlot {
                            data: Some(
                                BusinessProject {
                                    business_project_id: params.project_id,
                                    business_project_authority: params.business_project_authority,
                                    nonce_project: pre.nonce_project.key,
                                },
                            ),
                            ..pre.business_project
                        },
                        ..pre
                    },
                )
            },
        }
    }
}

/// Checks the admin gate of a nonce service against the signature given.
pub fn check_admin_gate(gate: AdminGate, admin: &Option<Signer>) -> (passes: bool)
    ensures
        passes == admin_gate_passes(gate, *admin),
{
    match gate {
        AdminGate::NoAdmin => true,
        AdminGate::RequireSignature(required) => match admin {
            Some(signer) => signer.key.same(&required),
            None => false,
        },
    }
}

/// Registers a business with a nonce service.
///
/// The business project is created once: a second registration of the same
/// business fails with `AlreadyExists` and changes nothing. The authority
/// stored is the one in `params`, whoever pays or signs.
pub fn register_business_project(
    ctx: &mut RegisterBusinessProjectAccounts,
    params: RegisterBusinessProjectParams,
) -> (r: Result<(), NonceVerifyErrors>)
    ensures
        match register_business_project_outcome(*old(ctx), params) {
            Ok(post) => r is Ok && *final(ctx) == post,
            Err(e) => r == Err::<(), NonceVerifyErrors>(e) && *final(ctx) == *old(ctx),
        },
        r is Ok ==> final(ctx).business_project.data == Some(
            BusinessProject {
                business_project_id: params.project_id,
                business_project_authority: params.business_project_authority,
                nonce_project: old(ctx).nonce_project.key,
            },
        ),
        old(ctx).business_project.data is Some ==> r is Err,
{
    let program_id = nonce_verify_program();
    let service_id = ctx.nonce_project.data.project_id;
    let business_seeds = seeds_of_two(BUSINESS_PROJECT_SEED, &ctx.nonce_project.key, &params.project_id);
    if check_seeds(&ctx.business_project.key, &business_seeds, &program_id).is_none() {
        return Err(NonceVerifyErrors::ConstraintSeeds);
    }
    let service_seeds = seeds_of_one(NONCE_PROJECT_SEED, &service_id);
    if check_seeds(&ctx.nonce_project.key, &service_seeds, &program_id).is_none() {
        return Err(NonceVerifyErrors::ConstraintSeeds);
    }
    let vault_seeds = seeds_of_one(NONCE_VAULT_ACCOUNT_SEED, &service_id);
    if check_seeds(&ctx.nonce_vault_account.key, &vault_seeds, &program_id).is_none() {
        return Err(NonceVerifyErrors::ConstraintSeeds);
    }
    if !check_admin_gate(ctx.nonce_project.data.gate(), &ctx.nonce_project_admin) {
        return Err(NonceVerifyErrors::RunOutOfAdminSignature);
    }
    match collect_fee(
        ctx.nonce_project.data.business_fee,
        ctx.register_fee_payer.lamports,
        ctx.nonce_vault_account.lamports,
    ) {
        Err(e) => Err(NonceVerifyErrors::from_transfer(e)),
        Ok((payer, vault)) => {
            if ctx.business_project.data.is_some() {
                return Err(NonceVerifyErrors::AlreadyExists);
            }
            ctx.business_project.data = Some(
                BusinessProject {
                    business_project_id: params.project_id,
                    business_project_authority: params.business_project_authority,
                    nonce_project: ctx.nonce_project.key,
                },
            );
            ctx.register_fee_payer.lamports = payer;
            ctx.nonce_vault_account.lamports = vault;
            Ok(())
        },
    }
}

} // verus!
