//! The claim: consume the nonce under the derived business authority, check
//! that the signature over the claim's payload was verified by the
//! instruction before, then mint under the derived mint authority.

use crate::address::{
    check_seeds, find_program_address, is_derived_from, program_derived_address, derived_view,
    seeds_of_two, tag_bytes, Address, DerivedAddress,
};
use crate::nonce_verify::init_user_business_nonce::UserBusinessNonceState;
use crate::nonce_verify::initialize_nonce_project::NonceProject;
use crate::nonce_verify::register_business_project::BusinessProject;
use crate::nonce_verify::verify_business_nonce::{
    verify_business_nonce, verify_business_nonce_outcome, VerifyBusinessNonceAccounts,
    VerifyBusinessNonceParams,
};
use crate::payload::{build_payload, payload_bytes};
use crate::programs::{
    associated_token_program, associated_token_seeds, program, seeds_of_associated_token,
    solana_airdrop_program, ASSOCIATED_TOKEN_PROGRAM_ID, SOLANA_AIRDROP_ID,
};
use crate::runtime::{
    mint_to, mint_to_outcome, Account, AccountInfo, AccountSlot, InstructionsSysvar, Mint, Signer,
    SystemAccount, TokenAccount,
};
use crate::solana_airdrop::constants::{
    AIRDROP_MINT_AUTHORITY_SEED, AIRDROP_NONCE_VERIFY_BUSINESS_PROJECT_SEED,
};
use crate::solana_airdrop::errors::AirdropErrors;
use crate::solana_airdrop::initialize_airdrop::AirdropProject;
use crate::solana_airdrop::signature_check::{
    signature_check_outcome, verify_sign_data_used_by_ed25519_program,
};
use vstd::prelude::*;

verus! {

/// The accounts of `claim_ft`.
#[derive(Clone, Debug, PartialEq, Eq)]
pub struct ClaimFtAccounts {
    /// Pays the nonce service's fee.
    pub nonce_fee_payer: Signer,
    /// The user who claims.
    pub claim_user: Signer,
    /// The airdrop project of the claim.
    pub airdrop_project: Account<AirdropProject>,
    /// The mint of the token that is claimed.
    pub mint: Account<Mint>,
    /// The authority that the service derived for project and mint.
    pub mint_authority: AccountInfo,
    /// The user's associated token account of the mint. Where it does not
    /// exist yet, the claim brings it into being with nothing in it.
    pub user_token_account: AccountSlot<TokenAccount>,
    /// The nonce service.
    pub nonce_project: Account<NonceProject>,
    /// The vault of the nonce service.
    pub nonce_vault_account: SystemAccount,
    /// The business project that the claim consumes a nonce of.
    pub business_project: Account<BusinessProject>,
    /// The authority that the service derived for project and business: the
    /// one that the business was registered with.
    pub business_project_authority: AccountInfo,
    /// The user's nonce record under the business.
    pub user_business_nonce: Account<UserBusinessNonceState>,
    /// The bundle that the claim runs in.
    pub ix_sysvar: InstructionsSysvar,
}

/// The arguments of `claim_ft`.
#[derive(Clone, Debug, PartialEq, Eq)]
pub struct ClaimFtParams {
    /// The number of tokens claimed.
    pub amount: u64,
    /// The nonce that the claim consumes.
    pub nonce: u32,
    /// The signature of the project's admin over the claim's payload.
    pub signature: Vec<u8>,
}

/// The seeds of the authority under which the service mints `mint` for
/// `airdrop_project`.
pub open spec fn mint_authority_seeds(airdrop_project: Address, mint: Address) -> Seq<Seq<u8>> {
    seq![tag_bytes(AIRDROP_MINT_AUTHORITY_SEED), airdrop_project@, mint@]
}

/// The seeds of the authority under which the service consumes nonces of
/// `business_project` for `airdrop_project`.
pub open spec fn business_authority_seeds(airdrop_project: Address, business_project: Address) -> Seq<
    Seq<u8>,
> {
    seq![tag_bytes(AIRDROP_NONCE_VERIFY_BUSINESS_PROJECT_SEED), airdrop_project@, business_project@]
}

/// Derives the authority that stands for the claim service towards the
/// nonce service, for one airdrop project and one business project. A
/// business registered with this authority can be consumed by the claim
/// service alone: no private key signs for the address.
pub fn derive_business_project_authority(
    airdrop_project: &Address,
    business_project: &Address,
) -> (r: Option<DerivedAddress>)
    ensures
        derived_view(r) == program_derived_address(
            business_authority_seeds(*airdrop_project, *business_project),
            program(SOLANA_AIRDROP_ID)@,
        ),
{
    let seeds = seeds_of_two(
        AIRDROP_NONCE_VERIFY_BUSINESS_PROJECT_SEED,
        airdrop_project,
        business_project,
    );
    find_program_address(&seeds, &solana_airdrop_program())
}

/// Derives the authority under which the claim service mints `mint` for
/// `airdrop_project`.
pub fn derive_mint_authority(airdrop_project: &Address, mint: &Address) -> (r: Option<
    DerivedAddress,
>)
    ensures
        derived_view(r) == program_derived_address(
            mint_authority_seeds(*airdrop_project, *mint),
            program(SOLANA_AIRDROP_ID)@,
        ),
{
    let seeds = seeds_of_two(AIRDROP_MINT_AUTHORITY_SEED, airdrop_project, mint);
    find_program_address(&seeds, &solana_airdrop_program())
}

/// The first account constraint that a claim breaks, if any. In this order:
/// an existing token account is of the mint, is owned by the user, the token
/// account is the user's associated account of the mint; the mint authority
/// is the one derived for project and mint; the business names the business
/// authority and the nonce service given; the business authority is the one
/// derived for project and business.
pub open spec fn claim_ft_constraint(pre: ClaimFtAccounts) -> Option<AirdropErrors> {
    if pre.user_token_account.data matches Some(token) && token.mint != pre.mint.key {
        Some(AirdropErrors::ConstraintTokenMint)
    } else if pre.user_token_account.data matches Some(token) && token.owner
        != pre.claim_user.key {
        Some(AirdropErrors::ConstraintTokenOwner)
    } else if !is_derived_from(
        pre.user_token_account.key,
        associated_token_seeds(pre.claim_user.key, pre.mint.key),
        program(ASSOCIATED_TOKEN_PROGRAM_ID),
    ) {
        Some(AirdropErrors::AccountNotAssociatedTokenAccount)
    } else if !is_derived_from(
        pre.mint_authority.key,
        mint_authority_seeds(pre.airdrop_project.key, pre.mint.key),
        program(SOLANA_AIRDROP_ID),
    ) {
        Some(AirdropErrors::ConstraintSeeds)
    } else if pre.business_project.data.business_project_authority
        != pre.business_project_authority.key {
        Some(AirdropErrors::ConstraintHasOne)
    } else if pre.business_project.data.nonce_project != pre.nonce_project.key {
        Some(AirdropErrors::ConstraintHasOne)
    } else if !is_derived_from(
        pre.business_project_authority.key,
        business_authority_seeds(pre.airdrop_project.key, pre.business_project.key),
        program(SOLANA_AIRDROP_ID),
    ) {
        Some(AirdropErrors::ConstraintSeeds)
    } else {
        None
    }
}

/// Checks the account constraints of a claim.
pub fn check_claim_ft_accounts(ctx: &ClaimFtAccounts) -> (r: Option<AirdropErrors>)
    ensures
        r == claim_ft_constraint(*ctx),
{
    if let Some(token) = ctx.user_token_account.data {
        if !token.mint.same(&ctx.mint.key) {
            return Some(AirdropErrors::ConstraintTokenMint);
        }
        if !token.owner.same(&ctx.claim_user.key) {
            return Some(AirdropErrors::ConstraintTokenOwner);
        }
    }
    let token_seeds = seeds_of_associated_token(&ctx.claim_user.key, &ctx.mint.key);
    if check_seeds(&ctx.user_token_account.key, &token_seeds, &associated_token_program()).is_none() {
        return Some(AirdropErrors::AccountNotAssociatedTokenAccount);
    }
    let program_id = solana_airdrop_program();
    let mint_seeds = seeds_of_two(AIRDROP_MINT_AUTHORITY_SEED, &ctx.airdrop_project.key, &ctx.mint.key);
    if check_seeds(&ctx.mint_authority.key, &mint_seeds, &program_id).is_none() {
        return Some(AirdropErrors::ConstraintSeeds);
    }
    if !ctx.business_project.data.business_project_authority.same(
        &ctx.business_project_authority.key,
    ) {
        return Some(AirdropErrors::ConstraintHasOne);
    }
    if !ctx.business_project.data.nonce_project.same(&ctx.nonce_project.key) {
        return Some(AirdropErrors::ConstraintHasOne);
    }
    let authority_seeds = seeds_of_two(
        AIRDROP_NONCE_VERIFY_BUSINESS_PROJECT_SEED,
        &ctx.airdrop_project.key,
        &ctx.business_project.key,
    );
    if check_seeds(&ctx.business_project_authority.key, &authority_seeds, &program_id).is_none() {
        return Some(AirdropErrors::ConstraintSeeds);
    }
    None
}

/// The accounts that the claim hands to the nonce service. The claim user
/// is the nonce user, and the derived business authority signs in place of
/// any key that a person holds.
pub open spec fn bridge_accounts(pre: ClaimFtAccounts) -> VerifyBusinessNonceAccounts {
    VerifyBusinessNonceAccounts {
        user_fee_payer: pre.nonce_fee_payer,
        nonce_user: pre.claim_user,
        user_business_nonce: pre.user_business_nonce,
        business_project_authority: Signer {
            key: pre.business_project_authority.key,
            lamports: pre.business_project_authority.lamports,
        },
        business_project: pre.business_project,
        nonce_project: pre.nonce_project,
        nonce_vault_account: pre.nonce_vault_account,
    }
}

/// What `verify_nonce` does: the accounts after it, or the failure of the
/// nonce service.
pub open spec fn verify_nonce_outcome(pre: ClaimFtAccounts, nonce: u32) -> Result<
    ClaimFtAccounts,
    AirdropErrors,
> {
    match verify_business_nonce_outcome(
        bridge_accounts(pre),
        VerifyBusinessNonceParams { nonce_value: nonce },
    ) {
        Err(e) => Err(AirdropErrors::Nonce(e)),
        Ok((post, _)) => Ok(
            ClaimFtAccounts {
                nonce_fee_payer: post.user_fee_payer,
                nonce_vault_account: post.nonce_vault_account,
                user_business_nonce: post.user_business_nonce,
                ..pre
            },
        ),
    }
}

/// Consumes the claim's nonce at the nonce service, signing as the derived
/// business authority.
pub fn verify_nonce(ctx: &mut ClaimFtAccounts, params: &ClaimFtParams) -> (r: Result<
    (),
    AirdropErrors,
>)
    ensures
        match verify_nonce_outcome(*old(ctx), params.nonce) {
            Ok(post) => r is Ok && *final(ctx) == post,
            Err(e) => r == Err::<(), AirdropErrors>(e) && *final(ctx) == *old(ctx),
        },
{
    let mut accounts = VerifyBusinessNonceAccounts {
        user_fee_payer: ctx.nonce_fee_payer,
        nonce_user: ctx.claim_user,
        user_business_nonce: ctx.user_business_nonce,
        business_project_authority: Signer {
            key: ctx.business_project_authority.key,
            lamports: ctx.business_project_authority.lamports,
        },
        business_project: ctx.business_project,
        nonce_project: ctx.nonce_project,
        nonce_vault_account: ctx.nonce_vault_account,
    };
    match verify_business_nonce(&mut accounts, VerifyBusinessNonceParams { nonce_value: params.nonce }) {
        Err(e) => Err(AirdropErrors::Nonce(e)),
        Ok(_) => {
            ctx.nonce_fee_payer = accounts.user_fee_payer;
            ctx.nonce_vault_account = accounts.nonce_vault_account;
            ctx.user_business_nonce = accounts.user_business_nonce;
            Ok(())
        },
    }
}

/// The payload that the project's admin signs for this claim.
pub open spec fn claim_payload(pre: ClaimFtAccounts, params: ClaimFtParams) -> Seq<u8> {
    payload_bytes(
        params.nonce,
        params.amount,
        pre.mint.key@,
        pre.claim_user.key@,
        pre.airdrop_project.key@,
        pre.business_project.key@,
    )
}

/// What `verify_sign` answers for a claim.
pub open spec fn verify_sign_outcome(pre: ClaimFtAccounts, params: ClaimFtParams) -> Result<
    (),
    AirdropErrors,
> {
    signature_check_outcome(
        pre.ix_sysvar,
        claim_payload(pre, params),
        params.signature@,
        pre.airdrop_project.data.airdrop_project_admin@,
    )
}

/// Builds the payload of the claim and checks that the instruction before
/// the claim verified `params.signature` over it under the key of the
/// project's admin.
pub fn verify_sign(ctx: &ClaimFtAccounts, params: &ClaimFtParams) -> (r: Result<(), AirdropErrors>)
    ensures
        r == verify_sign_outcome(*ctx, *params),
{
    let sign_data = build_payload(
        params.nonce,
        params.amount,
        &ctx.mint.key,
        &ctx.claim_user.key,
        &ctx.airdrop_project.key,
        &ctx.business_project.key,
    );
    let pk = ctx.airdrop_project.data.airdrop_project_admin.to_vec();
    verify_sign_data_used_by_ed25519_program(
        &ctx.ix_sysvar,
        sign_data.as_slice(),
        params.signature.as_slice(),
        pk.as_slice(),
    )
}

/// The token account that a claim mints into: the one in the slot, or a new
/// one of the mint, owned by the user, with nothing in it.
pub open spec fn claim_token_account(pre: ClaimFtAccounts) -> Account<TokenAccount> {
    Account {
        key: pre.user_token_account.key,
        lamports: pre.user_token_account.lamports,
        data: match pre.user_token_account.data {
            Some(token) => token,
            None => TokenAccount { mint: pre.mint.key, owner: pre.claim_user.key, amount: 0 },
        },
    }
}

/// What `do_mint_ft` does: the accounts after it, or the failure of the
/// token primitive.
pub open spec fn do_mint_ft_outcome(pre: ClaimFtAccounts, amount: u64) -> Result<
    ClaimFtAccounts,
    AirdropErrors,
> {
    match mint_to_outcome(pre.mint, claim_token_account(pre), pre.mint_authority.key, amount) {
        Err(e) => Err(AirdropErrors::Token(e)),
        Ok((mint, token)) => Ok(
            ClaimFtAccounts {
                mint,
                user_token_account: AccountSlot {
                    data: Some(token.data),
                    ..pre.user_token_account
                },
                ..pre
            },
        ),
    }
}

/// Mints the claimed amount into the user's token account, signing as the
/// derived mint authority. No policy is checked here.
pub fn do_mint_ft(ctx: &mut ClaimFtAccounts, params: &ClaimFtParams) -> (r: Result<
    (),
    AirdropErrors,
>)
    ensures
        match do_mint_ft_outcome(*old(ctx), params.amount) {
            Ok(post) => r is Ok && *final(ctx) == post,
            Err(e) => r == Err::<(), AirdropErrors>(e) && *final(ctx) == *old(ctx),
        },
{
    let data = match ctx.user_token_account.data {
        Some(token) => token,
        None => TokenAccount { mint: ctx.mint.key, owner: ctx.claim_user.key, amount: 0 },
    };
    let token = Account {
        key: ctx.user_token_account.key,
        lamports: ctx.user_token_account.lamports,
        data,
    };
    let authority = Signer { key: ctx.mint_authority.key, lamports: ctx.mint_authority.lamports };
    match mint_to(ctx.mint, token, &authority, params.amount) {
        Err(e) => Err(AirdropErrors::Token(e)),
        Ok((mint, token)) => {
            ctx.mint = mint;
            ctx.user_token_account.data = Some(token.data);
            Ok(())
        },
    }
}

/// What `claim_ft` does: the accounts after it, or the first failure. The
/// account constraints come first, then the nonce, the signature check and
/// the mint.
pub open spec fn claim_ft_outcome(pre: ClaimFtAccounts, params: ClaimFtParams) -> Result<
    ClaimFtAccounts,
    AirdropErrors,
> {
    match claim_ft_constraint(pre) {
        Some(e) => Err(e),
        None => match verify_nonce_outcome(pre, params.nonce) {
            Err(e) => Err(e),
            Ok(consumed) => match verify_sign_outcome(consumed, params) {
                Err(e) => Err(e),
                Ok(_) => do_mint_ft_outcome(consumed, params.amount),
            },
        },
    }
}

/// Claims `params.amount` tokens for the claiming user.
///
/// The claim succeeds only if the nonce service consumed `params.nonce` for
/// the user under the business, and the instruction before the claim is the
/// signature check of the claim's payload under the key of the project's
/// admin. Any failure leaves every account as it was.
pub fn claim_ft(ctx: &mut ClaimFtAccounts, params: &ClaimFtParams) -> (r: Result<(), AirdropErrors>)
    ensures
        match claim_ft_outcome(*old(ctx), *params) {
            Ok(post) => r is Ok && *final(ctx) == post,
            Err(e) => r == Err::<(), AirdropErrors>(e) && *final(ctx) == *old(ctx),
        },
        old(ctx).ix_sysvar.current_index == 0 ==> r is Err,
{
    if let Some(e) = check_claim_ft_accounts(ctx) {
        return Err(e);
    }
    let fee_payer = ctx.nonce_fee_payer;
    let vault = ctx.nonce_vault_account;
    let nonce = ctx.user_business_nonce;
    verify_nonce(ctx, params)?;
    if let Err(e) = verify_sign(ctx, params) {
        ctx.nonce_fee_payer = fee_payer;
        ctx.nonce_vault_account = vault;
        ctx.user_business_nonce = nonce;
        return Err(e);
    }
    if let Err(e) = do_mint_ft(ctx, params) {
        ctx.nonce_fee_payer = fee_payer;
        ctx.nonce_vault_account = vault;
        ctx.user_business_nonce = nonce;
        return Err(e);
    }
    Ok(())
}

} // verus!
