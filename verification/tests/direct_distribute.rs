use nonce_airdrop::address::{find_program_address, seeds_of_tag, seeds_of_two, Address};
use nonce_airdrop::direct_distribute_airdrop::constants::{
    DIRECT_DISTRIBUTE_AIRDROP_FEE_RECEIVER_SEED, DIRECT_DISTRIBUTE_AIRDROP_MANAGER_SEED,
    DIRECT_DISTRIBUTE_AIRDROP_MINT_AUTHORITY_SEED,
};
use nonce_airdrop::direct_distribute_airdrop::dda_airdrop_ft::{pay_distribution_fee, serve};
use nonce_airdrop::direct_distribute_airdrop::{
    claim_fee, dda_airdrop_ft, init_dda_airdrop_project, init_singleton_manage_project,
    transfer_dda_mint_authority, update_dda_airdrop_project, update_manager_singleton_project,
    update_singleton_manage_project,
    ClaimFeeAccounts, ClaimFeeParams, DdaAirdropFtAccounts, DdaAirdropFtParams, DdaAirdropProject,
    DirectDistributeAirdropErrors, InitDdaAirdropProjectAccounts,
    InitSingletonManageProjectAccounts, InitSingletonManageProjectParams, SingletonManageProject,
    TransferMintAuthAccounts, UpdateDdaAirdropProjectAccounts, UpdateDdaAirdropProjectParams,
    UpdateSingletonManageProjectAccounts, UpdateSingletonManageProjectParams,
};
use nonce_airdrop::programs::{associated_token_address, direct_distribute_airdrop_program};
use nonce_airdrop::runtime::{
    Account, AccountInfo, AccountSlot, Mint, Signer, SystemAccount, TokenAccount, TokenError,
};

fn addr(n: u8) -> Address {
    Address::new([n; 32])
}

fn pda(seeds: Vec<Vec<u8>>) -> Address {
    find_program_address(&seeds, &direct_distribute_airdrop_program()).unwrap().address
}

const ADMIN: u8 = 1;
const PAYER: u8 = 2;
const PROJECT: u8 = 3;
const MINT: u8 = 4;
const AIRDROP_ADMIN: u8 = 5;

fn manager_key() -> Address {
    pda(seeds_of_tag(DIRECT_DISTRIBUTE_AIRDROP_MANAGER_SEED))
}

fn fee_receiver_key() -> Address {
    pda(seeds_of_tag(DIRECT_DISTRIBUTE_AIRDROP_FEE_RECEIVER_SEED))
}

fn mint_authority() -> Address {
    pda(seeds_of_two(DIRECT_DISTRIBUTE_AIRDROP_MINT_AUTHORITY_SEED, &addr(PROJECT), &addr(MINT)))
}

fn manager(user_fee: u32) -> Account<SingletonManageProject> {
    Account {
        key: manager_key(),
        lamports: 10,
        data: SingletonManageProject {
            inintialized: true,
            manage_admin: addr(ADMIN),
            fee_receiver: fee_receiver_key(),
            user_fee,
        },
    }
}

fn receiver(n: u8) -> AccountSlot<TokenAccount> {
    AccountSlot { key: addr(n), lamports: 1, data: None }
}

fn token_of(n: u8) -> AccountSlot<TokenAccount> {
    AccountSlot::empty(associated_token_address(&addr(n), &addr(MINT)).unwrap())
}

fn distribution(user_fee: u32, receivers: &[u8]) -> DdaAirdropFtAccounts {
    let mut remaining = Vec::new();
    for n in receivers {
        remaining.push(receiver(*n));
        remaining.push(token_of(*n));
    }
    DdaAirdropFtAccounts {
        payer: Signer { key: addr(PAYER), lamports: 1_000 },
        singlton_manage_project: manager(user_fee),
        fee_receiver: SystemAccount { key: fee_receiver_key(), lamports: 100 },
        dda_airdrop_admin: Signer { key: addr(AIRDROP_ADMIN), lamports: 0 },
        dda_airdrop_project: Account {
            key: addr(PROJECT),
            lamports: 20,
            data: DdaAirdropProject { dda_airdrop_admin: addr(AIRDROP_ADMIN) },
        },
        mint: Account {
            key: addr(MINT),
            lamports: 30,
            data: Mint { mint_authority: Some(mint_authority()), supply: 1_000 },
        },
        mint_authority: AccountInfo { key: mint_authority(), lamports: 0 },
        remaining_accounts: remaining,
    }
}

#[test]
fn init_singleton_manage_project_runs_once() {
    let mut ctx = InitSingletonManageProjectAccounts {
        payer: Signer { key: addr(PAYER), lamports: 2_000_000 },
        manage_admin: Signer { key: addr(ADMIN), lamports: 0 },
        singlton_manage_project: AccountSlot::empty(manager_key()),
        fee_receiver: SystemAccount { key: fee_receiver_key(), lamports: 0 },
        fee_receiver_rent_exemption: 890_880,
    };
    let params = InitSingletonManageProjectParams { user_fee: 12 };
    assert_eq!(init_singleton_manage_project(&mut ctx, params), Ok(()));
    assert_eq!(
        ctx.singlton_manage_project.data,
        Some(SingletonManageProject {
            inintialized: true,
            manage_admin: addr(ADMIN),
            fee_receiver: fee_receiver_key(),
            user_fee: 12,
        })
    );
    assert_eq!(ctx.payer.lamports, 2_000_000 - 890_880);
    assert_eq!(ctx.fee_receiver.lamports, 890_880);
    let after = ctx;
    assert_eq!(
        init_singleton_manage_project(&mut ctx, InitSingletonManageProjectParams { user_fee: 13 }),
        Err(DirectDistributeAirdropErrors::AlreadyInitialized)
    );
    assert_eq!(ctx, after);
}

#[test]
fn init_singleton_manage_project_takes_a_record_that_is_not_initialized() {
    let blank = SingletonManageProject {
        inintialized: false,
        manage_admin: addr(0),
        fee_receiver: addr(0),
        user_fee: 0,
    };
    let mut ctx = InitSingletonManageProjectAccounts {
        payer: Signer { key: addr(PAYER), lamports: 5 },
        manage_admin: Signer { key: addr(ADMIN), lamports: 0 },
        singlton_manage_project: AccountSlot { key: manager_key(), lamports: 9, data: Some(blank) },
        fee_receiver: SystemAccount { key: fee_receiver_key(), lamports: 0 },
        fee_receiver_rent_exemption: 6,
    };
    let params = InitSingletonManageProjectParams { user_fee: 12 };
    let before = ctx;
    assert_eq!(
        init_singleton_manage_project(&mut ctx, params),
        Err(DirectDistributeAirdropErrors::InsufficientFunds)
    );
    assert_eq!(ctx, before);
    ctx.fee_receiver_rent_exemption = 5;
    assert_eq!(init_singleton_manage_project(&mut ctx, params), Ok(()));
    assert!(ctx.singlton_manage_project.data.unwrap().inintialized);
    let mut wrong = before;
    wrong.fee_receiver.key = addr(9);
    assert_eq!(
        init_singleton_manage_project(&mut wrong, params),
        Err(DirectDistributeAirdropErrors::ConstraintSeeds)
    );
    let mut wrong = before;
    wrong.singlton_manage_project.key = addr(9);
    assert_eq!(
        init_singleton_manage_project(&mut wrong, params),
        Err(DirectDistributeAirdropErrors::ConstraintSeeds)
    );
}

#[test]
fn update_singleton_manage_project_sets_what_is_named() {
    let start = UpdateSingletonManageProjectAccounts {
        manage_admin: Signer { key: addr(ADMIN), lamports: 0 },
        singlton_manage_project: manager(12),
    };
    let mut ctx = start;
    let none = UpdateSingletonManageProjectParams { new_manage_admin: None, new_user_fee: None };
    assert_eq!(update_singleton_manage_project(&mut ctx, none), Ok(()));
    assert_eq!(ctx, start);
    let fee = UpdateSingletonManageProjectParams { new_manage_admin: None, new_user_fee: Some(99) };
    assert_eq!(update_singleton_manage_project(&mut ctx, fee), Ok(()));
    assert_eq!(ctx.singlton_manage_project.data.user_fee, 99);
    assert_eq!(ctx.singlton_manage_project.data.manage_admin, addr(ADMIN));
    let both = UpdateSingletonManageProjectParams { new_manage_admin: Some(addr(50)), new_user_fee: Some(7) };
    assert_eq!(update_singleton_manage_project(&mut ctx, both), Ok(()));
    assert_eq!(ctx.singlton_manage_project.data.user_fee, 7);
    assert_eq!(ctx.singlton_manage_project.data.manage_admin, addr(50));
    assert_eq!(ctx.singlton_manage_project.data.fee_receiver, fee_receiver_key());
    let after = ctx;
    assert_eq!(
        update_singleton_manage_project(&mut ctx, fee),
        Err(DirectDistributeAirdropErrors::ConstraintHasOne)
    );
    assert_eq!(ctx, after);
    let mut wrong = start;
    wrong.singlton_manage_project.key = addr(51);
    assert_eq!(
        update_singleton_manage_project(&mut wrong, fee),
        Err(DirectDistributeAirdropErrors::ConstraintSeeds)
    );
}

#[test]
fn claim_fee_moves_from_the_fee_receiver() {
    let start = ClaimFeeAccounts {
        receiver: SystemAccount { key: addr(60), lamports: 1 },
        manage_admin: Signer { key: addr(ADMIN), lamports: 0 },
        singlton_manage_project: manager(12),
        fee_receiver: SystemAccount { key: fee_receiver_key(), lamports: 100 },
    };
    let mut ctx = start;
    assert_eq!(claim_fee(&mut ctx, ClaimFeeParams { amount: 40 }), Ok(()));
    assert_eq!(ctx.receiver.lamports, 41);
    assert_eq!(ctx.fee_receiver.lamports, 60);
    assert_eq!(
        claim_fee(&mut ctx, ClaimFeeParams { amount: 61 }),
        Err(DirectDistributeAirdropErrors::InsufficientFunds)
    );
    let mut ctx = start;
    ctx.receiver.lamports = u64::MAX;
    assert_eq!(
        claim_fee(&mut ctx, ClaimFeeParams { amount: 1 }),
        Err(DirectDistributeAirdropErrors::LamportOverflow)
    );
    let mut ctx = start;
    ctx.manage_admin.key = addr(61);
    assert_eq!(
        claim_fee(&mut ctx, ClaimFeeParams { amount: 1 }),
        Err(DirectDistributeAirdropErrors::ConstraintHasOne)
    );
    let mut ctx = start;
    ctx.fee_receiver.key = addr(62);
    assert_eq!(
        claim_fee(&mut ctx, ClaimFeeParams { amount: 1 }),
        Err(DirectDistributeAirdropErrors::ConstraintHasOne)
    );
    let mut ctx = start;
    ctx.fee_receiver.key = addr(62);
    ctx.singlton_manage_project.data.fee_receiver = addr(62);
    assert_eq!(
        claim_fee(&mut ctx, ClaimFeeParams { amount: 1 }),
        Err(DirectDistributeAirdropErrors::ConstraintSeeds)
    );
    assert_eq!(ctx.fee_receiver.lamports, 100);
}

#[test]
fn dda_airdrop_project_is_created_once_and_handed_on() {
    let mut ctx = InitDdaAirdropProjectAccounts {
        airdrop_admin: AccountInfo { key: addr(AIRDROP_ADMIN), lamports: 0 },
        dda_airdrop_project: AccountSlot::empty(addr(PROJECT)),
    };
    assert_eq!(init_dda_airdrop_project(&mut ctx), Ok(()));
    assert_eq!(
        ctx.dda_airdrop_project.data,
        Some(DdaAirdropProject { dda_airdrop_admin: addr(AIRDROP_ADMIN) })
    );
    assert_eq!(init_dda_airdrop_project(&mut ctx), Err(DirectDistributeAirdropErrors::AlreadyExists));
    let mut update = UpdateDdaAirdropProjectAccounts {
        dda_airdrop_admin: Signer { key: addr(AIRDROP_ADMIN), lamports: 0 },
        dda_airdrop_project: ctx.dda_airdrop_project.account().unwrap(),
    };
    let params = UpdateDdaAirdropProjectParams { new_airdrop_admin: addr(70) };
    assert_eq!(update_dda_airdrop_project(&mut update, params), Ok(()));
    assert_eq!(update.dda_airdrop_project.data.dda_airdrop_admin, addr(70));
    let after = update;
    assert_eq!(
        update_dda_airdrop_project(&mut update, params),
        Err(DirectDistributeAirdropErrors::ConstraintHasOne)
    );
    assert_eq!(update, after);
}

#[test]
fn transfer_dda_mint_authority_hands_the_mint_on() {
    let base = distribution(0, &[]);
    let mut ctx = TransferMintAuthAccounts {
        dda_airdrop_admin: base.dda_airdrop_admin,
        dda_airdrop_project: base.dda_airdrop_project,
        mint: base.mint,
        mint_authority: base.mint_authority,
        new_mint_authority: AccountInfo { key: addr(80), lamports: 0 },
    };
    assert_eq!(transfer_dda_mint_authority(&mut ctx), Ok(()));
    assert_eq!(ctx.mint.data.mint_authority, Some(addr(80)));
    assert_eq!(
        transfer_dda_mint_authority(&mut ctx),
        Err(DirectDistributeAirdropErrors::Token(TokenError::OwnerMismatch))
    );
    ctx.mint_authority.key = addr(81);
    assert_eq!(transfer_dda_mint_authority(&mut ctx), Err(DirectDistributeAirdropErrors::ConstraintSeeds));
    ctx.dda_airdrop_admin.key = addr(82);
    assert_eq!(transfer_dda_mint_authority(&mut ctx), Err(DirectDistributeAirdropErrors::ConstraintHasOne));
}

#[test]
fn pay_distribution_fee_is_fee_times_receivers() {
    assert_eq!(pay_distribution_fee(7, 3, 100, 5), Ok((79, 26)));
    assert_eq!(pay_distribution_fee(0, 3, 100, 5), Ok((100, 5)));
    assert_eq!(pay_distribution_fee(7, 0, 0, u64::MAX), Ok((0, u64::MAX)));
    assert_eq!(
        pay_distribution_fee(7, 3, 20, 5),
        Err(DirectDistributeAirdropErrors::InsufficientFunds)
    );
    assert_eq!(
        pay_distribution_fee(7, 3, 100, u64::MAX - 20),
        Err(DirectDistributeAirdropErrors::LamportOverflow)
    );
    assert_eq!(
        pay_distribution_fee(u32::MAX, usize::MAX, u64::MAX, 0),
        Err(DirectDistributeAirdropErrors::LamportOverflow)
    );
    assert_eq!(pay_distribution_fee(u32::MAX, 4_294_967_297, u64::MAX, 0), Ok((0, u64::MAX)));
    assert_eq!(
        pay_distribution_fee(u32::MAX, 4_294_967_298, u64::MAX, 0),
        Err(DirectDistributeAirdropErrors::LamportOverflow)
    );
    assert_eq!(
        pay_distribution_fee(u32::MAX, 2, u64::MAX, 0),
        Ok((u64::MAX - 8_589_934_590, 8_589_934_590))
    );
}

#[test]
fn distribution_mints_to_each_receiver_in_order() {
    let mut ctx = distribution(10, &[21, 22, 23]);
    let params = DdaAirdropFtParams { amounts: vec![100, 200, 300] };
    assert_eq!(dda_airdrop_ft(&mut ctx, &params), Ok(()));
    assert_eq!(ctx.payer.lamports, 970);
    assert_eq!(ctx.fee_receiver.lamports, 130);
    assert_eq!(ctx.mint.data.supply, 1_600);
    assert_eq!(ctx.remaining_accounts.len(), 6);
    for (i, (n, amount)) in [(21u8, 100u64), (22, 200), (23, 300)].iter().enumerate() {
        assert_eq!(ctx.remaining_accounts[2 * i], receiver(*n));
        assert_eq!(
            ctx.remaining_accounts[2 * i + 1].data,
            Some(TokenAccount { mint: addr(MINT), owner: addr(*n), amount: *amount })
        );
        assert_eq!(ctx.remaining_accounts[2 * i + 1].key, token_of(*n).key);
    }
}

#[test]
fn distribution_adds_to_token_accounts_that_exist() {
    let mut ctx = distribution(0, &[21, 21]);
    ctx.remaining_accounts[1] = AccountSlot {
        key: token_of(21).key,
        lamports: 2_039_280,
        data: Some(TokenAccount { mint: addr(MINT), owner: addr(21), amount: 5 }),
    };
    ctx.remaining_accounts[3] = ctx.remaining_accounts[1];
    let params = DdaAirdropFtParams { amounts: vec![1, 2] };
    assert_eq!(dda_airdrop_ft(&mut ctx, &params), Ok(()));
    assert_eq!(ctx.remaining_accounts[1].data.unwrap().amount, 6);
    assert_eq!(ctx.remaining_accounts[3].data.unwrap().amount, 7);
    assert_eq!(ctx.mint.data.supply, 1_003);
    assert_eq!(ctx.payer.lamports, 1_000);
    assert_eq!(ctx.fee_receiver.lamports, 100);
}

#[test]
fn distribution_to_nobody_changes_nothing() {
    let mut ctx = distribution(10, &[]);
    let before = ctx.clone();
    assert_eq!(dda_airdrop_ft(&mut ctx, &DdaAirdropFtParams { amounts: Vec::new() }), Ok(()));
    assert_eq!(ctx, before);
}

#[test]
fn distribution_needs_two_accounts_for_each_amount() {
    let mut ctx = distribution(10, &[21, 22]);
    let before = ctx.clone();
    for amounts in [vec![], vec![1], vec![1, 2, 3]] {
        assert_eq!(
            dda_airdrop_ft(&mut ctx, &DdaAirdropFtParams { amounts }),
            Err(DirectDistributeAirdropErrors::AirdropReceiverCountNotMatch)
        );
        assert_eq!(ctx, before);
    }
    ctx.remaining_accounts.pop();
    assert_eq!(
        dda_airdrop_ft(&mut ctx, &DdaAirdropFtParams { amounts: vec![1] }),
        Err(DirectDistributeAirdropErrors::AirdropReceiverCountNotMatch)
    );
    assert_eq!(
        dda_airdrop_ft(&mut ctx, &DdaAirdropFtParams { amounts: vec![1, 2] }),
        Err(DirectDistributeAirdropErrors::AirdropReceiverCountNotMatch)
    );
}

#[test]
fn distribution_that_fails_late_changes_nothing() {
    let mut ctx = distribution(10, &[21, 22, 23]);
    ctx.remaining_accounts[5].key = token_of(24).key;
    let before = ctx.clone();
    let params = DdaAirdropFtParams { amounts: vec![100, 200, 300] };
    assert_eq!(
        dda_airdrop_ft(&mut ctx, &params),
        Err(DirectDistributeAirdropErrors::ReceiverTokenAccountNotMatchReceiverAccount)
    );
    assert_eq!(ctx, before);
    let mut ctx = distribution(10, &[21, 22]);
    ctx.mint.data.supply = u64::MAX - 250;
    let before = ctx.clone();
    assert_eq!(
        dda_airdrop_ft(&mut ctx, &DdaAirdropFtParams { amounts: vec![100, 200] }),
        Err(DirectDistributeAirdropErrors::Token(TokenError::Overflow))
    );
    assert_eq!(ctx, before);
    let mut ctx = distribution(10, &[21, 22]);
    ctx.payer.lamports = 19;
    assert_eq!(
        dda_airdrop_ft(&mut ctx, &DdaAirdropFtParams { amounts: vec![100, 200] }),
        Err(DirectDistributeAirdropErrors::InsufficientFunds)
    );
}

#[test]
fn distribution_checks_its_accounts() {
    let params = DdaAirdropFtParams { amounts: vec![1] };
    let mut ctx = distribution(0, &[21]);
    ctx.dda_airdrop_admin.key = addr(90);
    assert_eq!(dda_airdrop_ft(&mut ctx, &params), Err(DirectDistributeAirdropErrors::ConstraintHasOne));
    let mut ctx = distribution(0, &[21]);
    ctx.mint_authority.key = addr(91);
    assert_eq!(dda_airdrop_ft(&mut ctx, &params), Err(DirectDistributeAirdropErrors::ConstraintSeeds));
    let mut ctx = distribution(0, &[21]);
    ctx.singlton_manage_project.key = addr(92);
    assert_eq!(dda_airdrop_ft(&mut ctx, &params), Err(DirectDistributeAirdropErrors::ConstraintSeeds));
    let mut ctx = distribution(0, &[21]);
    ctx.fee_receiver.key = addr(93);
    assert_eq!(dda_airdrop_ft(&mut ctx, &params), Err(DirectDistributeAirdropErrors::ConstraintHasOne));
    let mut ctx = distribution(0, &[21]);
    ctx.mint.data.mint_authority = Some(addr(94));
    assert_eq!(
        dda_airdrop_ft(&mut ctx, &params),
        Err(DirectDistributeAirdropErrors::Token(TokenError::OwnerMismatch))
    );
}

#[test]
fn serve_one_receiver() {
    let base = distribution(0, &[21]);
    let authority = Signer { key: mint_authority(), lamports: 0 };
    let (mint, token) = serve(base.mint, &authority, &receiver(21), &token_of(21), 50).unwrap();
    assert_eq!(mint.data.supply, 1_050);
    assert_eq!(token.data, Some(TokenAccount { mint: addr(MINT), owner: addr(21), amount: 50 }));
    assert_eq!(token.lamports, 0);
    let mut funded = token_of(21);
    funded.lamports = 5;
    assert_eq!(
        serve(base.mint, &authority, &receiver(21), &funded, 50),
        Err(DirectDistributeAirdropErrors::Token(TokenError::InvalidAccountData))
    );
    funded.data = Some(TokenAccount { mint: addr(99), owner: addr(21), amount: 0 });
    assert_eq!(
        serve(base.mint, &authority, &receiver(21), &funded, 50),
        Err(DirectDistributeAirdropErrors::Token(TokenError::MintMismatch))
    );
    assert_eq!(
        serve(base.mint, &authority, &receiver(22), &token_of(21), 50),
        Err(DirectDistributeAirdropErrors::ReceiverTokenAccountNotMatchReceiverAccount)
    );
}

#[test]
fn update_manager_singleton_project_is_the_same_instruction() {
    let start = UpdateSingletonManageProjectAccounts {
        manage_admin: Signer { key: addr(ADMIN), lamports: 0 },
        singlton_manage_project: manager(12),
    };
    let params = UpdateSingletonManageProjectParams { new_manage_admin: Some(addr(50)), new_user_fee: None };
    let mut by_name = start;
    let mut by_instruction = start;
    assert_eq!(update_manager_singleton_project(&mut by_name, params), Ok(()));
    assert_eq!(update_singleton_manage_project(&mut by_instruction, params), Ok(()));
    assert_eq!(by_name, by_instruction);
    assert_eq!(by_name.singlton_manage_project.data.manage_admin, addr(50));
    assert_eq!(by_name.singlton_manage_project.data.user_fee, 12);
    assert_eq!(
        update_manager_singleton_project(&mut by_name, params),
        Err(DirectDistributeAirdropErrors::ConstraintHasOne)
    );
}
