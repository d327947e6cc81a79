//! The distribution: one mint per receiver, each into the receiver's
//! associated token account, for a fee per receiver.

use crate::address::{check_seeds, is_derived_from, seeds_of_tag, seeds_of_two, Address};
use crate::direct_distribute_airdrop::constants::{
    DIRECT_DISTRIBUTE_AIRDROP_FEE_RECEIVER_SEED, DIRECT_DISTRIBUTE_AIRDROP_MANAGER_SEED,
    DIRECT_DISTRIBUTE_AIRDROP_MINT_AUTHORITY_SEED,
};
use crate::direct_distribute_airdrop::errors::{transfer_failure, DirectDistributeAirdropErrors};
use crate::direct_distribute_airdrop::init_dda_airdrop_project::DdaAirdropProject;
use crate::direct_distribute_airdrop::init_singleton_manage_project::{
    fee_receiver_seeds, manager_seeds, SingletonManageProject,
};
use crate::direct_distribute_airdrop::transfer_dda_mint_authority::dda_mint_authority_seeds;
use crate::programs::{
    associated_token_address, associated_token_seeds, direct_distribute_airdrop_program, program,
    ASSOCIATED_TOKEN_PROGRAM_ID, DIRECT_DISTRIBUTE_AIRDROP_ID,
};
use crate::runtime::{
    mint_to, mint_to_outcome, transfer, transfer_outcome, Account, AccountInfo, AccountSlot, Mint,
    Signer, SystemAccount, TokenAccount, TokenError,
};
use vstd::prelude::*;

verus! {

/// The accounts of `dda_airdrop_ft`.
#[derive(Clone, Debug, PartialEq, Eq)]
pub struct DdaAirdropFtAccounts {
    /// Pays the fee.
    pub payer: Signer,
    /// The manage project, which fixes the fee.
    pub singlton_manage_project: Account<SingletonManageProject>,
    /// The account that collects the fee.
    pub fee_receiver: SystemAccount,
    /// The admin of the distribution project, who signs.
    pub dda_airdrop_admin: Signer,
    /// The distribution project.
    pub dda_airdrop_project: Account<DdaAirdropProject>,
    /// The mint of the token that is distributed.
    pub mint: Account<Mint>,
    /// The authority that the service derived for project and mint.
    pub mint_authority: AccountInfo,
    /// For each amount two accounts, in this order: the receiver and the
    /// receiver's token account. A token account with a balance of zero
    /// lamports does not exist yet and is created.
    pub remaining_accounts: Vec<AccountSlot<TokenAccount>>,
}

/// The arguments of `dda_airdrop_ft`.
#[derive(Clone, Debug, PartialEq, Eq)]
pub struct DdaAirdropFtParams {
    /// The number of tokens for each receiver.
    pub amounts: Vec<u64>,
}

/// The first account constraint that a distribution breaks, if any.
pub open spec fn dda_airdrop_ft_constraint(pre: DdaAirdropFtAccounts) -> Option<
    DirectDistributeAirdropErrors,
> {
    if !is_derived_from(
        pre.singlton_manage_project.key,
        manager_seeds(),
        program(DIRECT_DISTRIBUTE_AIRDROP_ID),
    ) {
        Some(DirectDistributeAirdropErrors::ConstraintSeeds)
    } else if pre.singlton_manage_project.data.fee_receiver != pre.fee_receiver.key {
        Some(DirectDistributeAirdropErrors::ConstraintHasOne)
    } else if !is_derived_from(
        pre.fee_receiver.key,
        fee_receiver_seeds(),
        program(DIRECT_DISTRIBUTE_AIRDROP_ID),
    ) {
        Some(DirectDistributeAirdropErrors::ConstraintSeeds)
    } else if pre.dda_airdrop_project.data.dda_airdrop_admin != pre.dda_airdrop_admin.key {
        Some(DirectDistributeAirdropErrors::ConstraintHasOne)
    } else if !is_derived_from(
        pre.mint_authority.key,
        dda_mint_authority_seeds(pre.dda_airdrop_project.key, pre.mint.key),
        program(DIRECT_DISTRIBUTE_AIRDROP_ID),
    ) {
        Some(DirectDistributeAirdropErrors::ConstraintSeeds)
    } else {
        None
    }
}

/// What paying the fee of a distribution to `receivers` receivers does to
/// the balances of payer and fee receiver: the fee is the fee per receiver
/// times their number, and a fee of zero moves nothing.
pub open spec fn distribution_fee_outcome(user_fee: u32, receivers: nat, payer: u64, collector: u64) -> Result<
    (u64, u64),
    DirectDistributeAirdropErrors,
> {
    if user_fee * receivers > u64::MAX {
        Err(DirectDistributeAirdropErrors::LamportOverflow)
    } else if user_fee * receivers == 0 {
        Ok((payer, collector))
    } else {
        match transfer_outcome(payer, collector, (user_fee * receivers) as u64) {
            Err(e) => Err(transfer_failure(e)),
            Ok(balances) => Ok(balances),
        }
    }
}

/// What serving one receiver does: the mint and the receiver's token
/// account after `amount` was minted, or the failure. The token account must
/// be the receiver's associated account of the mint; one without lamports is
/// created empty first.
pub open spec fn serve_outcome(
    mint: Account<Mint>,
    authority: Address,
    receiver: AccountSlot<TokenAccount>,
    token: AccountSlot<TokenAccount>,
    amount: u64,
) -> Result<(Account<Mint>, AccountSlot<TokenAccount>), DirectDistributeAirdropErrors> {
    if !is_derived_from(
        token.key,
        associated_token_seeds(receiver.key, mint.key),
        program(ASSOCIATED_TOKEN_PROGRAM_ID),
    ) {
        Err(DirectDistributeAirdropErrors::ReceiverTokenAccountNotMatchReceiverAccount)
    } else {
        let held = if token.lamports == 0 {
            Some(TokenAccount { mint: mint.key, owner: receiver.key, amount: 0 })
        } else {
            token.data
        };
        match held {
            None => Err(DirectDistributeAirdropErrors::Token(TokenError::InvalidAccountData)),
            Some(data) => match mint_to_outcome(
                mint,
                Account { key: token.key, lamports: token.lamports, data },
                authority,
                amount,
            ) {
                Err(e) => Err(DirectDistributeAirdropErrors::Token(e)),
                Ok((mint_after, token_after)) => Ok(
                    (mint_after, AccountSlot { data: Some(token_after.data), ..token }),
                ),
            },
        }
    }
}

/// What serving the receivers from number `from` on does, in order: the
/// mint and the accounts after the last one, or the first failure.
pub open spec fn distribute_outcome(
    mint: Account<Mint>,
    authority: Address,
    accounts: Seq<AccountSlot<TokenAccount>>,
    amounts: Seq<u64>,
    from: nat,
) -> Result<(Account<Mint>, Seq<AccountSlot<TokenAccount>>), DirectDistributeAirdropErrors>
    decreases amounts.len() - from,
{
    if from >= amounts.len() {
        Ok((mint, accounts))
    } else {
        match serve_outcome(
            mint,
            authority,
            accounts[2 * from as int],
            accounts[2 * from as int + 1],
            amounts[from as int],
        ) {
            Err(e) => Err(e),
            Ok((mint_after, token_after)) => distribute_outcome(
                mint_after,
                authority,
                accounts.update(2 * from as int + 1, token_after),
                amounts,
                from + 1,
            ),
        }
    }
}

/// What a distribution changes: the balances of payer and fee receiver,
/// the mint, and the receivers' accounts.
pub struct Distribution {
    pub payer: u64,
    pub fee_receiver: u64,
    pub mint: Account<Mint>,
    pub accounts: Seq<AccountSlot<TokenAccount>>,
}

/// What `dda_airdrop_ft` does: what it changes, or the first failure. After
/// the account constraints come the count of the accounts, the fee, and the
/// receivers in order.
pub open spec fn dda_airdrop_ft_outcome(pre: DdaAirdropFtAccounts, params: DdaAirdropFtParams) -> Result<
    Distribution,
    DirectDistributeAirdropErrors,
> {
    match dda_airdrop_ft_constraint(pre) {
        Some(e) => Err(e),
        None => if pre.remaining_accounts@.len() != 2 * params.amounts@.len() {
            Err(DirectDistributeAirdropErrors::AirdropReceiverCountNotMatch)
        } else {
            match distribution_fee_outcome(
                pre.singlton_manage_project.data.user_fee,
                params.amounts@.len(),
                pre.payer.lamports,
                pre.fee_receiver.lamports,
            ) {
                Err(e) => Err(e),
                Ok((payer, fee_receiver)) => match distribute_outcome(
                    pre.mint,
                    pre.mint_authority.key,
                    pre.remaining_accounts@,
                    params.amounts@,
                    0,
                ) {
                    Err(e) => Err(e),
                    Ok((mint, accounts)) => Ok(Distribution { payer, fee_receiver, mint, accounts }),
                },
            }
        },
    }
}

/// Whether `post` is `pre` with the changes of `done` and no other.
pub open spec fn distribution_applied(
    pre: DdaAirdropFtAccounts,
    post: DdaAirdropFtAccounts,
    done: Distribution,
) -> bool {
    &&& post.payer == (Signer { lamports: done.payer, ..pre.payer })
    &&& post.fee_receiver == (SystemAccount { lamports: done.fee_receiver, ..pre.fee_receiver })
    &&& post.mint == done.mint
    &&& post.remaining_accounts@ == done.accounts
    &&& post.singlton_manage_project == pre.singlton_manage_project
    &&& post.dda_airdrop_admin == pre.dda_airdrop_admin
    &&& post.dda_airdrop_project == pre.dda_airdrop_project
    &&& post.mint_authority == pre.mint_authority
}

/// Checks the account constraints of a distribution.
pub fn check_dda_airdrop_ft_accounts(ctx: &DdaAirdropFtAccounts) -> (r: Option<
    DirectDistributeAirdropErrors,
>)
    ensures
        r == dda_airdrop_ft_constraint(*ctx),
{
    let program_id = direct_distribute_airdrop_program();
    let project_seeds = seeds_of_tag(DIRECT_DISTRIBUTE_AIRDROP_MANAGER_SEED);
    if check_seeds(&ctx.singlton_manage_project.key, &project_seeds, &program_id).is_none() {
        return Some(DirectDistributeAirdropErrors::ConstraintSeeds);
    }
    if !ctx.singlton_manage_project.data.fee_receiver.same(&ctx.fee_receiver.key) {
        return Some(DirectDistributeAirdropErrors::ConstraintHasOne);
    }
    let receiver_seeds = seeds_of_tag(DIRECT_DISTRIBUTE_AIRDROP_FEE_RECEIVER_SEED);
    if check_seeds(&ctx.fee_receiver.key, &receiver_seeds, &program_id).is_none() {
        return Some(DirectDistributeAirdropErrors::ConstraintSeeds);
    }
    if !ctx.dda_airdrop_project.data.dda_airdrop_admin.same(&ctx.dda_airdrop_admin.key) {
        return Some(DirectDistributeAirdropErrors::ConstraintHasOne);
    }
    let mint_seeds = seeds_of_two(
        DIRECT_DISTRIBUTE_AIRDROP_MINT_AUTHORITY_SEED,
        &ctx.dda_airdrop_project.key,
        &ctx.mint.key,
    );
    if check_seeds(&ctx.mint_authority.key, &mint_seeds, &program_id).is_none() {
        return Some(DirectDistributeAirdropErrors::ConstraintSeeds);
    }
    None
}

/// Charges the fee of a distribution to `receivers` receivers and returns
/// the new balances of payer and fee receiver.
pub fn pay_distribution_fee(user_fee: u32, receivers: usize, payer: u64, collector: u64) -> (r:
    Result<(u64, u64), DirectDistributeAirdropErrors>)
    ensures
        r == distribution_fee_outcome(user_fee, receivers as nat, payer, collector),
{
    assert(user_fee * receivers <= 0xffff_ffff * 0xffff_ffff_ffff_ffff) by (nonlinear_arith)
        requires
            user_fee <= 0xffff_ffff,
            receivers <= 0xffff_ffff_ffff_ffff,
    ;
    let fee: u128 = (user_fee as u128) * (receivers as u128);
    if fee > u64::MAX as u128 {
        return Err(DirectDistributeAirdropErrors::LamportOverflow);
    }
    if fee == 0 {
        return Ok((payer, collector));
    }
    match transfer(payer, collector, fee as u64) {
        Err(e) => Err(DirectDistributeAirdropErrors::from_transfer(e)),
        Ok(balances) => Ok(balances),
    }
}

/// Serves one receiver: checks that the token account is the receiver's
/// associated account of the mint, creates it where it has no lamports, and
/// mints `amount` into it.
pub fn serve(
    mint: Account<Mint>,
    authority: &Signer,
    receiver: &AccountSlot<TokenAccount>,
    token: &AccountSlot<TokenAccount>,
    amount: u64,
) -> (r: Result<(Account<Mint>, AccountSlot<TokenAccount>), DirectDistributeAirdropErrors>)
    ensures
        r == serve_outcome(mint, authority.key, *receiver, *token, amount),
{
    let matches = match associated_token_address(&receiver.key, &mint.key) {
        Some(expected) => expected.same(&token.key),
        None => false,
    };
    if !matches {
        return Err(DirectDistributeAirdropErrors::ReceiverTokenAccountNotMatchReceiverAccount);
    }
    let held = if token.lamports == 0 {
        Some(TokenAccount { mint: mint.key, owner: receiver.key, amount: 0 })
    } else {
        token.data
    };
    match held {
        None => Err(DirectDistributeAirdropErrors::Token(TokenError::InvalidAccountData)),
        Some(data) => {
            let account = Account { key: token.key, lamports: token.lamports, data };
            match mint_to(mint, account, authority, amount) {
                Err(e) => Err(DirectDistributeAirdropErrors::Token(e)),
                Ok((mint_after, token_after)) => Ok(
                    (
                        mint_after,
                        AccountSlot {
                            key: token.key,
                            lamports: token.lamports,
                            data: Some(token_after.data),
                        },
                    ),
                ),
            }
        },
    }
}

/// Mints to each receiver the amount at its place in `params.amounts`, and
/// charges the payer the fee of the manage project once for each receiver.
///
/// `ctx.remaining_accounts` holds, for each amount, the receiver and then
/// the receiver's token account. Any failure leaves every account as it was.
pub fn dda_airdrop_ft(ctx: &mut DdaAirdropFtAccounts, params: &DdaAirdropFtParams) -> (r: Result<
    (),
    DirectDistributeAirdropErrors,
>)
    ensures
        match dda_airdrop_ft_outcome(*old(ctx), *params) {
            Ok(done) => r is Ok && distribution_applied(*old(ctx), *final(ctx), done),
            Err(e) => r == Err::<(), DirectDistributeAirdropErrors>(e) && *final(ctx) == *old(ctx),
        },
{
    if let Some(e) = check_dda_airdrop_ft_accounts(ctx) {
        return Err(e);
    }
    let receiver_count = params.amounts.len();
    let remain_accounts_count = ctx.remaining_accounts.len();
    if remain_accounts_count % 2 != 0 || remain_accounts_count / 2 != receiver_count {
        return Err(DirectDistributeAirdropErrors::AirdropReceiverCountNotMatch);
    }
    let (payer, fee_receiver) = pay_distribution_fee(
        ctx.singlton_manage_project.data.user_fee,
        receiver_count,
        ctx.payer.lamports,
        ctx.fee_receiver.lamports,
    )?;
    let authority = Signer { key: ctx.mint_authority.key, lamports: ctx.mint_authority.lamports };
    let mut mint = ctx.mint;
    let mut accounts: Vec<AccountSlot<TokenAccount>> = Vec::new();
    let mut k: usize = 0;
    while k < remain_accounts_count
        invariant
            k <= remain_accounts_count,
            remain_accounts_count == ctx.remaining_accounts.len(),
            accounts@ == ctx.remaining_accounts@.subrange(0, k as int),
        decreases remain_accounts_count - k,
    {
        accounts.push(ctx.remaining_accounts[k]);
        k = k + 1;
    }
    assert(accounts@ =~= ctx.remaining_accounts@);
    let mut i: usize = 0;
    while i < receiver_count
        invariant
            i <= receiver_count,
            receiver_count == params.amounts.len(),
            accounts.len() == 2 * receiver_count,
            authority.key == ctx.mint_authority.key,
            *ctx == *old(ctx),
            dda_airdrop_ft_constraint(*ctx) is None,
            ctx.remaining_accounts@.len() == 2 * params.amounts@.len(),
            distribution_fee_outcome(
                ctx.singlton_manage_project.data.user_fee,
                params.amounts@.len(),
                ctx.payer.lamports,
                ctx.fee_receiver.lamports,
            ) == Ok::<(u64, u64), DirectDistributeAirdropErrors>((payer, fee_receiver)),
            distribute_outcome(
                ctx.mint,
                ctx.mint_authority.key,
                ctx.remaining_accounts@,
                params.amounts@,
                0,
            ) == distribute_outcome(mint, authority.key, accounts@, params.amounts@, i as nat),
        decreases receiver_count - i,
    {
        let receiver = accounts[2 * i];
        let token = accounts[2 * i + 1];
        match serve(mint, &authority, &receiver, &token, params.amounts[i]) {
            Err(e) => {
                return Err(e);
            },
            Ok((mint_after, token_after)) => {
                mint = mint_after;
                accounts.set(2 * i + 1, token_after);
            },
        }
        i = i + 1;
    }
    ctx.payer.lamports = payer;
    ctx.fee_receiver.lamports = fee_receiver;
    ctx.mint = mint;
    ctx.remaining_accounts = accounts;
    Ok(())
}

} // verus!
