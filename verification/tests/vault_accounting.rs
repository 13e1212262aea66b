use solana_token_engine::account::Account;
use solana_token_engine::error::{ErrorCode, ErrorKind};
use solana_token_engine::pda::{find_vault_address, find_vault_auth_address};
use solana_token_engine::pubkey::Pubkey;
use solana_token_engine::rbf::{RBFStatus, RBF};
use solana_token_engine::router::{vault_deploy, vault_deploy_derived, VaultDeploy};
use solana_token_engine::vault::{
    create_vault, deposit, rbf_liquidation, rbf_subscription, vault_add_liquidity, vault_remove_liquidity,
    withdraw, CreateVault, CreateVaultParams, Deposit, RBFLiquidation, RBFSubscription, Vault, VaultAddLiquidity,
    VaultAuth, VaultRemoveLiquidity, Withdraw,
};

fn key(byte: u8) -> Pubkey {
    Pubkey::new_from_array([byte; 32])
}

fn program() -> Pubkey {
    key(200)
}

const MANAGER: u8 = 61;
const BOT: u8 = 62;
const ORACLE: u8 = 52;
const FUND: u8 = 90;

fn fund(status: RBFStatus) -> RBF {
    RBF {
        creater: key(2),
        drds: key(ORACLE),
        manager: key(51),
        asset_mint: key(53),
        rbf_mint: key(50),
        asset_treasury: key(54),
        asset_recipient: key(55),
        vault: None,
        total_subscription: 0,
        total_redemption: 0,
        liquidation_slippage: 50,
        status,
        bump: 255,
    }
}

fn fund_account(status: RBFStatus) -> Account<RBF> {
    Account { key: key(FUND), lamports: 10, data: Some(fund(status)) }
}

fn params() -> CreateVaultParams {
    CreateVaultParams {
        manager: key(MANAGER),
        dexBot: key(BOT),
        vault_mint: key(63),
        asset_mint: key(53),
        vault_treasury: key(64),
        asset_treasury: key(65),
        fund_start_time: 1_000,
        fund_end_time: 2_000,
        min_deposit_amount: 10,
    }
}

fn creation() -> CreateVault {
    let (address, _) = find_vault_address(&key(FUND), &program()).unwrap();
    CreateVault {
        program_id: program(),
        creator: key(51),
        vault: Account { key: address, lamports: 4, data: None },
        rbf: fund_account(RBFStatus::Running),
    }
}

fn vault(fund_amount: u64, rbf_fund_amount: u64, dex_fund_amount: u64) -> Vault {
    Vault {
        creater: key(51),
        manager: key(MANAGER),
        dexBot: key(BOT),
        vault_mint: key(63),
        asset_mint: key(53),
        vault_treasury: key(64),
        asset_treasury: key(65),
        rbf: key(FUND),
        fund_start_time: 1_000,
        fund_end_time: 2_000,
        fund_amount,
        rbf_fund_amount,
        dex_fund_amount,
        min_deposit_amount: 10,
    }
}

#[test]
fn create_vault_links_the_fund_and_starts_empty() {
    let mut ctx = creation();
    let before = ctx;
    assert_eq!(create_vault(&mut ctx, params()), Ok(()));
    assert_eq!(ctx.vault.data, Some(vault(0, 0, 0)));
    assert_eq!(ctx.vault.key, before.vault.key);
    assert_eq!(ctx.vault.lamports, 4);
    assert_eq!(ctx.rbf, before.rbf);
    assert_eq!(ctx.vault.data.unwrap().idle(), Some(0));
}

#[test]
fn create_vault_rejects_a_bound_fund() {
    let mut ctx = creation();
    let mut bound = fund(RBFStatus::Running);
    bound.vault = Some(key(70));
    ctx.rbf.data = Some(bound);
    let before = ctx;
    let answer = create_vault(&mut ctx, params());
    assert_eq!(answer, Err(ErrorCode::VaultAlreadySet));
    assert_eq!(answer.unwrap_err().kind(), ErrorKind::State);
    assert_eq!(ctx, before);
}

#[test]
fn create_vault_asks_for_the_manager_of_the_fund() {
    let mut ctx = creation();
    ctx.creator = key(2);
    let before = ctx;
    let answer = create_vault(&mut ctx, params());
    assert_eq!(answer, Err(ErrorCode::Unauthorized));
    assert_eq!(answer.unwrap_err().kind(), ErrorKind::Authorization);
    assert_eq!(ctx, before);
    ctx.creator = key(MANAGER);
    assert_eq!(create_vault(&mut ctx, params()), Err(ErrorCode::Unauthorized));
    ctx.creator = key(ORACLE);
    assert_eq!(create_vault(&mut ctx, params()), Err(ErrorCode::Unauthorized));
    ctx.creator = key(51);
    assert_eq!(create_vault(&mut ctx, params()), Ok(()));
    assert_eq!(ctx.vault.data.unwrap().creater, key(51));
    assert_eq!(ctx.vault.data.unwrap().manager, key(MANAGER));
}

#[test]
fn create_vault_reports_the_binding_before_the_caller() {
    let mut ctx = creation();
    let mut bound = fund(RBFStatus::Running);
    bound.vault = Some(key(70));
    ctx.rbf.data = Some(bound);
    ctx.creator = key(2);
    assert_eq!(create_vault(&mut ctx, params()), Err(ErrorCode::VaultAlreadySet));
}

#[test]
fn router_rejects_a_delegated_creator_who_is_not_the_manager() {
    let creator = key(2);
    let (auth_address, auth_bump) = find_vault_auth_address(&creator, &program()).unwrap();
    let mut create = creation();
    create.creator = creator;
    let mut ctx = VaultDeploy {
        vault_auth: Account { key: auth_address, lamports: 1, data: Some(VaultAuth { creator, bump: auth_bump }) },
        create,
    };
    let before = ctx;
    assert_eq!(vault_deploy(&mut ctx, params()), Err(ErrorCode::Unauthorized));
    assert_eq!(ctx, before);
}

#[test]
fn create_vault_rejections() {
    let mut ctx = creation();
    ctx.rbf.data = None;
    assert_eq!(create_vault(&mut ctx, params()), Err(ErrorCode::AccountNotInitialized));

    let mut ctx = creation();
    ctx.vault.key = key(9);
    assert_eq!(create_vault(&mut ctx, params()), Err(ErrorCode::ConstraintSeeds));

    let mut ctx = creation();
    ctx.rbf.key = key(91);
    assert_eq!(create_vault(&mut ctx, params()), Err(ErrorCode::ConstraintSeeds));

    let mut ctx = creation();
    ctx.vault.data = Some(vault(5, 0, 0));
    let before = ctx;
    assert_eq!(create_vault(&mut ctx, params()), Err(ErrorCode::AccountAlreadyInUse));
    assert_eq!(ctx, before);
}

#[test]
fn create_vault_given_a_derived_address() {
    let handler = solana_token_engine::vault::instructions::create_vault::create_vault;
    let mut ctx = CreateVault {
        program_id: program(),
        creator: key(51),
        vault: Account { key: key(30), lamports: 4, data: None },
        rbf: fund_account(RBFStatus::Liquidating),
    };
    assert_eq!(handler(&mut ctx, params(), None), Err(ErrorCode::ConstraintSeeds));
    assert_eq!(handler(&mut ctx, params(), Some((key(31), 255))), Err(ErrorCode::ConstraintSeeds));
    assert_eq!(handler(&mut ctx, params(), Some((key(30), 255))), Ok(()));
    assert_eq!(ctx.vault.data, Some(vault(0, 0, 0)));
    assert_eq!(handler(&mut ctx, params(), Some((key(30), 255))), Err(ErrorCode::AccountAlreadyInUse));
}

#[test]
fn router_deploys_a_vault_for_a_delegated_creator() {
    let creator = key(51);
    let (auth_address, auth_bump) = find_vault_auth_address(&creator, &program()).unwrap();
    let mut ctx = VaultDeploy {
        vault_auth: Account { key: auth_address, lamports: 1, data: Some(VaultAuth { creator, bump: auth_bump }) },
        create: creation(),
    };
    assert_eq!(vault_deploy(&mut ctx, params()), Ok(()));
    assert_eq!(ctx.create.vault.data, Some(vault(0, 0, 0)));
    assert_eq!(vault_deploy(&mut ctx, params()), Err(ErrorCode::AccountAlreadyInUse));
}

#[test]
fn router_rejects_a_creator_without_delegation() {
    let creator = key(51);
    let (auth_address, auth_bump) = find_vault_auth_address(&creator, &program()).unwrap();
    let mut ctx = VaultDeploy {
        vault_auth: Account { key: auth_address, lamports: 0, data: None },
        create: creation(),
    };
    let before = ctx;
    let answer = vault_deploy(&mut ctx, params());
    assert_eq!(answer, Err(ErrorCode::InvalidAuthAccount));
    assert_eq!(answer.unwrap_err().kind(), ErrorKind::Authorization);
    assert_eq!(ctx, before);

    ctx.vault_auth.data = Some(VaultAuth { creator: key(4), bump: auth_bump });
    assert_eq!(vault_deploy(&mut ctx, params()), Err(ErrorCode::InvalidAuthAccount));
    ctx.vault_auth.data = Some(VaultAuth { creator, bump: auth_bump });
    ctx.vault_auth.key = key(8);
    assert_eq!(vault_deploy(&mut ctx, params()), Err(ErrorCode::InvalidAuthAccount));
}

#[test]
fn router_deploy_given_derived_addresses() {
    let creator = key(51);
    let mut ctx = VaultDeploy {
        vault_auth: Account { key: key(40), lamports: 1, data: Some(VaultAuth { creator, bump: 9 }) },
        create: CreateVault {
            program_id: program(),
            creator,
            vault: Account { key: key(30), lamports: 4, data: None },
            rbf: fund_account(RBFStatus::Running),
        },
    };
    assert_eq!(
        vault_deploy_derived(&mut ctx, params(), Some((key(40), 8)), Some((key(30), 255))),
        Err(ErrorCode::InvalidAuthAccount)
    );
    assert_eq!(
        vault_deploy_derived(&mut ctx, params(), Some((key(40), 9)), Some((key(31), 255))),
        Err(ErrorCode::ConstraintSeeds)
    );
    assert_eq!(vault_deploy_derived(&mut ctx, params(), Some((key(40), 9)), Some((key(30), 255))), Ok(()));
    assert_eq!(ctx.create.vault.data, Some(vault(0, 0, 0)));
}

#[test]
fn deposit_raises_the_idle_balance() {
    let mut ctx = Deposit { vault: vault(100, 30, 20), depositor: key(7) };
    assert_eq!(deposit(&mut ctx, 10, 1_000), Ok(()));
    assert_eq!(ctx.vault, vault(110, 30, 20));
    assert_eq!(ctx.vault.idle(), Some(60));
    assert_eq!(deposit(&mut ctx, 500, 2_000), Ok(()));
    assert_eq!(ctx.vault, vault(610, 30, 20));
    assert_eq!(ctx.vault.idle(), Some(560));
}

#[test]
fn deposit_rejections() {
    let mut ctx = Deposit { vault: vault(100, 30, 20), depositor: key(7) };
    let before = ctx;
    let small = deposit(&mut ctx, 9, 1_500);
    assert_eq!(small, Err(ErrorCode::DepositTooSmall));
    assert_eq!(small.unwrap_err().kind(), ErrorKind::Constraint);
    let early = deposit(&mut ctx, 10, 999);
    assert_eq!(early, Err(ErrorCode::OutsideFundingWindow));
    assert_eq!(early.unwrap_err().kind(), ErrorKind::State);
    assert_eq!(deposit(&mut ctx, 10, 2_001), Err(ErrorCode::OutsideFundingWindow));
    assert_eq!(deposit(&mut ctx, 10, i64::MIN), Err(ErrorCode::OutsideFundingWindow));
    assert_eq!(deposit(&mut ctx, 9, 999), Err(ErrorCode::DepositTooSmall));
    assert_eq!(deposit(&mut ctx, u64::MAX - 99, 1_500), Err(ErrorCode::NumericalOverflow));
    assert_eq!(ctx, before);
    assert_eq!(deposit(&mut ctx, u64::MAX - 100, 1_500), Ok(()));
    assert_eq!(ctx.vault.fund_amount, u64::MAX);
}

#[test]
fn withdraw_lowers_the_idle_balance() {
    let mut ctx = Withdraw { vault: vault(100, 30, 20), authority: key(MANAGER) };
    assert_eq!(withdraw(&mut ctx, 50), Ok(()));
    assert_eq!(ctx.vault, vault(50, 30, 20));
    assert_eq!(ctx.vault.idle(), Some(0));
    let before = ctx;
    let answer = withdraw(&mut ctx, 1);
    assert_eq!(answer, Err(ErrorCode::InsufficientFunds));
    assert_eq!(answer.unwrap_err().kind(), ErrorKind::Arithmetic);
    assert_eq!(ctx, before);
    assert_eq!(withdraw(&mut ctx, 0), Ok(()));
    assert_eq!(ctx, before);
}

#[test]
fn withdraw_rejections() {
    let mut ctx = Withdraw { vault: vault(100, 30, 20), authority: key(BOT) };
    let before = ctx;
    assert_eq!(withdraw(&mut ctx, 1), Err(ErrorCode::Unauthorized));
    assert_eq!(withdraw(&mut ctx, 1_000), Err(ErrorCode::Unauthorized));
    assert_eq!(ctx, before);
    ctx.authority = key(MANAGER);
    assert_eq!(withdraw(&mut ctx, 51), Err(ErrorCode::InsufficientFunds));
    let mut broken = Withdraw { vault: vault(10, 30, 20), authority: key(MANAGER) };
    assert_eq!(withdraw(&mut broken, 0), Err(ErrorCode::InvalidAccount));
    assert_eq!(broken.vault.idle(), None);
}

#[test]
fn liquidity_moves_between_idle_and_trading() {
    let mut add = VaultAddLiquidity { vault: vault(100, 30, 20), authority: key(BOT) };
    assert_eq!(vault_add_liquidity(&mut add, 50), Ok(()));
    assert_eq!(add.vault, vault(100, 30, 70));
    assert_eq!(add.vault.idle(), Some(0));
    assert_eq!(vault_add_liquidity(&mut add, 1), Err(ErrorCode::InsufficientFunds));
    assert_eq!(add.vault, vault(100, 30, 70));

    let mut remove = VaultRemoveLiquidity { vault: add.vault, authority: key(BOT) };
    let too_much = vault_remove_liquidity(&mut remove, 71);
    assert_eq!(too_much, Err(ErrorCode::InsufficientFunds));
    assert_eq!(too_much.unwrap_err().kind(), ErrorKind::Arithmetic);
    assert_eq!(remove.vault, vault(100, 30, 70));
    assert_eq!(vault_remove_liquidity(&mut remove, 70), Ok(()));
    assert_eq!(remove.vault, vault(100, 30, 0));
    assert_eq!(remove.vault.idle(), Some(70));
}

#[test]
fn liquidity_asks_for_the_trading_bot() {
    let mut add = VaultAddLiquidity { vault: vault(100, 30, 20), authority: key(MANAGER) };
    assert_eq!(vault_add_liquidity(&mut add, 1), Err(ErrorCode::Unauthorized));
    let mut remove = VaultRemoveLiquidity { vault: vault(100, 30, 20), authority: key(MANAGER) };
    assert_eq!(vault_remove_liquidity(&mut remove, 1), Err(ErrorCode::Unauthorized));
    assert_eq!(add.vault, vault(100, 30, 20));
    assert_eq!(remove.vault, vault(100, 30, 20));
    let mut add = VaultAddLiquidity { vault: vault(10, 30, 20), authority: key(BOT) };
    assert_eq!(vault_add_liquidity(&mut add, 0), Err(ErrorCode::InvalidAccount));
    let mut remove = VaultRemoveLiquidity { vault: vault(10, 30, 20), authority: key(BOT) };
    assert_eq!(vault_remove_liquidity(&mut remove, 0), Err(ErrorCode::InvalidAccount));
}

#[test]
fn subscription_while_running_and_while_liquidating() {
    let mut ctx = RBFSubscription {
        vault: vault(500, 0, 0),
        rbf: fund_account(RBFStatus::Running),
        authority: key(MANAGER),
    };
    assert_eq!(ctx.vault.idle(), Some(500));
    assert_eq!(rbf_subscription(&mut ctx, 100), Ok(()));
    assert_eq!(ctx.rbf.data.unwrap().total_subscription, 100);
    assert_eq!(ctx.vault.rbf_fund_amount, 100);
    assert_eq!(ctx.vault.idle(), Some(400));
    assert_eq!(ctx.vault.fund_amount, 500);
    assert_eq!(ctx.vault.dex_fund_amount, 0);

    let mut liquidating = RBFSubscription {
        vault: vault(500, 0, 0),
        rbf: fund_account(RBFStatus::Liquidating),
        authority: key(MANAGER),
    };
    let before = liquidating;
    let answer = rbf_subscription(&mut liquidating, 100);
    assert_eq!(answer, Err(ErrorCode::InvalidRBFStatus));
    assert_eq!(answer.unwrap_err().kind(), ErrorKind::State);
    assert_eq!(liquidating, before);
}

#[test]
fn subscription_rejections() {
    let mut ctx = RBFSubscription {
        vault: vault(500, 100, 350),
        rbf: fund_account(RBFStatus::Running),
        authority: key(MANAGER),
    };
    let before = ctx;
    assert_eq!(rbf_subscription(&mut ctx, 51), Err(ErrorCode::InsufficientFunds));
    ctx.authority = key(ORACLE);
    assert_eq!(rbf_subscription(&mut ctx, 50), Err(ErrorCode::Unauthorized));
    ctx.authority = key(MANAGER);
    ctx.rbf.key = key(91);
    assert_eq!(rbf_subscription(&mut ctx, 50), Err(ErrorCode::InvalidAccount));
    ctx.rbf = Account { key: key(FUND), lamports: 10, data: None };
    assert_eq!(rbf_subscription(&mut ctx, 50), Err(ErrorCode::AccountNotInitialized));
    let mut full = fund(RBFStatus::Running);
    full.total_subscription = u64::MAX - 49;
    ctx.rbf = Account { key: key(FUND), lamports: 10, data: Some(full) };
    assert_eq!(rbf_subscription(&mut ctx, 50), Err(ErrorCode::NumericalOverflow));
    assert_eq!(ctx.vault, before.vault);
    assert_eq!(ctx.rbf.data, Some(full));
    assert_eq!(rbf_subscription(&mut ctx, 49), Ok(()));
    assert_eq!(ctx.rbf.data.unwrap().total_subscription, u64::MAX);
    assert_eq!(ctx.vault, vault(500, 149, 350));
}

#[test]
fn liquidation_returns_the_amount_and_records_the_redemption() {
    let mut ctx = RBFLiquidation {
        vault: vault(500, 100, 0),
        rbf: fund_account(RBFStatus::Liquidating),
        authority: key(MANAGER),
    };
    assert_eq!(rbf_liquidation(&mut ctx, 60), Ok(()));
    assert_eq!(ctx.vault, vault(500, 40, 0));
    assert_eq!(ctx.vault.idle(), Some(460));
    assert_eq!(ctx.rbf.data.unwrap().total_redemption, 60);
    assert_eq!(ctx.rbf.data.unwrap().total_subscription, 0);
    ctx.authority = key(ORACLE);
    assert_eq!(rbf_liquidation(&mut ctx, 40), Ok(()));
    assert_eq!(ctx.vault, vault(500, 0, 0));
    assert_eq!(ctx.rbf.data.unwrap().total_redemption, 100);
    let before = ctx;
    let answer = rbf_liquidation(&mut ctx, 1);
    assert_eq!(answer, Err(ErrorCode::InsufficientFunds));
    assert_eq!(answer.unwrap_err().kind(), ErrorKind::Arithmetic);
    assert_eq!(ctx, before);
}

#[test]
fn liquidation_rejections() {
    let mut ctx = RBFLiquidation {
        vault: vault(500, 100, 0),
        rbf: fund_account(RBFStatus::Running),
        authority: key(MANAGER),
    };
    let before = ctx;
    let answer = rbf_liquidation(&mut ctx, 60);
    assert_eq!(answer, Err(ErrorCode::InvalidRBFStatus));
    assert_eq!(answer.unwrap_err().kind(), ErrorKind::State);
    assert_eq!(ctx, before);
    ctx.rbf = fund_account(RBFStatus::Liquidating);
    ctx.authority = key(BOT);
    assert_eq!(rbf_liquidation(&mut ctx, 60), Err(ErrorCode::Unauthorized));
    ctx.authority = key(51);
    assert_eq!(rbf_liquidation(&mut ctx, 60), Err(ErrorCode::Unauthorized));
    ctx.authority = key(MANAGER);
    ctx.rbf.key = key(91);
    assert_eq!(rbf_liquidation(&mut ctx, 60), Err(ErrorCode::InvalidAccount));
    ctx.rbf.key = key(FUND);
    ctx.rbf.data = None;
    assert_eq!(rbf_liquidation(&mut ctx, 60), Err(ErrorCode::AccountNotInitialized));
    let mut full = fund(RBFStatus::Liquidating);
    full.total_redemption = u64::MAX;
    ctx.rbf.data = Some(full);
    assert_eq!(rbf_liquidation(&mut ctx, 1), Err(ErrorCode::NumericalOverflow));
    assert_eq!(ctx.vault, vault(500, 100, 0));
}

#[test]
fn balances_are_conserved_through_a_history() {
    let mut state = vault(0, 0, 0);
    let mut account = fund_account(RBFStatus::Running);
    let check = |v: &Vault| {
        let idle = v.idle().unwrap();
        assert_eq!(v.fund_amount, idle + v.rbf_fund_amount + v.dex_fund_amount);
        assert_eq!(v.rbf, key(FUND));
    };

    let mut d = Deposit { vault: state, depositor: key(7) };
    assert_eq!(deposit(&mut d, 1_000, 1_500), Ok(()));
    state = d.vault;
    check(&state);

    let mut a = VaultAddLiquidity { vault: state, authority: key(BOT) };
    assert_eq!(vault_add_liquidity(&mut a, 300), Ok(()));
    state = a.vault;
    check(&state);

    let mut s = RBFSubscription { vault: state, rbf: account, authority: key(MANAGER) };
    assert_eq!(rbf_subscription(&mut s, 450), Ok(()));
    assert_eq!(rbf_subscription(&mut s, 251), Err(ErrorCode::InsufficientFunds));
    state = s.vault;
    account = s.rbf;
    check(&state);

    let mut w = Withdraw { vault: state, authority: key(MANAGER) };
    assert_eq!(withdraw(&mut w, 250), Ok(()));
    state = w.vault;
    check(&state);
    assert_eq!(state, vault(750, 450, 300));

    let mut r = VaultRemoveLiquidity { vault: state, authority: key(BOT) };
    assert_eq!(vault_remove_liquidity(&mut r, 100), Ok(()));
    state = r.vault;
    check(&state);

    let mut fund = account.data.unwrap();
    fund.status = RBFStatus::Liquidating;
    account.data = Some(fund);
    let mut l = RBFLiquidation { vault: state, rbf: account, authority: key(ORACLE) };
    assert_eq!(rbf_liquidation(&mut l, 450), Ok(()));
    state = l.vault;
    check(&state);
    assert_eq!(state, vault(750, 0, 200));
    assert_eq!(state.idle(), Some(550));
    assert_eq!(l.rbf.data.unwrap().total_subscription, 450);
    assert_eq!(l.rbf.data.unwrap().total_redemption, 450);
}

#[test]
fn deploy_to_fund_and_back() {
    let mut v = vault(100, 30, 20);
    assert_eq!(v.deploy_to_fund(false, 10), Err(ErrorCode::Unauthorized));
    assert_eq!(v.deploy_to_fund(true, 51), Err(ErrorCode::InsufficientFunds));
    assert_eq!(v.deploy_to_fund(true, 50), Ok(()));
    assert_eq!(v, vault(100, 80, 20));
    assert_eq!(v.return_from_fund(false, 10), Err(ErrorCode::Unauthorized));
    assert_eq!(v.return_from_fund(true, 81), Err(ErrorCode::InsufficientFunds));
    assert_eq!(v.return_from_fund(true, 80), Ok(()));
    assert_eq!(v, vault(100, 0, 20));
    let mut broken = vault(10, 30, 20);
    assert_eq!(broken.deploy_to_fund(true, 0), Err(ErrorCode::InvalidAccount));
    assert_eq!(broken.return_from_fund(true, 0), Err(ErrorCode::InvalidAccount));
    let mut edge = vault(u64::MAX, u64::MAX, 1);
    assert_eq!(edge.idle(), None);
    assert_eq!(edge.deploy_to_fund(true, 0), Err(ErrorCode::InvalidAccount));
}

#[test]
fn vault_record_size() {
    assert_eq!(Vault::ACCOUNT_SIZE, 304);
}
