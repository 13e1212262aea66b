//! Moving a vault's balances: deposits and withdrawals, liquidity sent to and
//! taken back from trading, and amounts sent to and taken back from the fund.

use vstd::prelude::*;
use crate::account::Account;
use crate::error::{committed, ErrorCode};
use crate::pubkey::Pubkey;
use crate::rbf::state::RBF;
use crate::vault::state::Vault;

verus! {

/// The records that a deposit reads and writes.
#[derive(Clone, Copy, Debug, PartialEq, Eq)]
pub struct Deposit {
    pub vault: Vault,
    /// The caller, whose tokens the token program moves into custody.
    pub depositor: Pubkey,
}

/// The records that a withdrawal reads and writes.
#[derive(Clone, Copy, Debug, PartialEq, Eq)]
pub struct Withdraw {
    pub vault: Vault,
    /// The caller.
    pub authority: Pubkey,
}

/// The records that sending liquidity to trading reads and writes.
#[derive(Clone, Copy, Debug, PartialEq, Eq)]
pub struct VaultAddLiquidity {
    pub vault: Vault,
    /// The caller.
    pub authority: Pubkey,
}

/// The records that taking liquidity back from trading reads and writes.
#[derive(Clone, Copy, Debug, PartialEq, Eq)]
pub struct VaultRemoveLiquidity {
    pub vault: Vault,
    /// The caller.
    pub authority: Pubkey,
}

/// The records that subscribing to the fund reads and writes.
#[derive(Clone, Copy, Debug, PartialEq, Eq)]
pub struct RBFSubscription {
    pub vault: Vault,
    /// The vault's fund.
    pub rbf: Account<RBF>,
    /// The caller.
    pub authority: Pubkey,
}

/// The records that liquidating from the fund reads and writes.
#[derive(Clone, Copy, Debug, PartialEq, Eq)]
pub struct RBFLiquidation {
    pub vault: Vault,
    /// The vault's fund.
    pub rbf: Account<RBF>,
    /// The caller.
    pub authority: Pubkey,
}

/// What a deposit does: the vault changes as `Vault::spec_deposit` says.
pub open spec fn spec_deposit(pre: Deposit, amount: u64, now: i64) -> Result<Deposit, ErrorCode> {
    match pre.vault.spec_deposit(amount, now) {
        Ok(vault) => Ok(Deposit { vault, ..pre }),
        Err(code) => Err(code),
    }
}

/// What a withdrawal does: the vault changes as `Vault::spec_withdraw` says,
/// on behalf of the caller.
pub open spec fn spec_withdraw(pre: Withdraw, amount: u64) -> Result<Withdraw, ErrorCode> {
    match pre.vault.spec_withdraw(pre.authority, amount) {
        Ok(vault) => Ok(Withdraw { vault, ..pre }),
        Err(code) => Err(code),
    }
}

/// What sending liquidity to trading does: the vault changes as
/// `Vault::spec_add_liquidity` says, on behalf of the caller.
pub open spec fn spec_vault_add_liquidity(pre: VaultAddLiquidity, amount: u64) -> Result<VaultAddLiquidity, ErrorCode> {
    match pre.vault.spec_add_liquidity(pre.authority, amount) {
        Ok(vault) => Ok(VaultAddLiquidity { vault, ..pre }),
        Err(code) => Err(code),
    }
}

/// What taking liquidity back from trading does: the vault changes as
/// `Vault::spec_remove_liquidity` says, on behalf of the caller.
pub open spec fn spec_vault_remove_liquidity(pre: VaultRemoveLiquidity, amount: u64) -> Result<VaultRemoveLiquidity, ErrorCode> {
    match pre.vault.spec_remove_liquidity(pre.authority, amount) {
        Ok(vault) => Ok(VaultRemoveLiquidity { vault, ..pre }),
        Err(code) => Err(code),
    }
}

/// What subscribing `amount` to the fund does. The fund must exist and be the
/// vault's fund. The fund then records the subscription, which it rejects
/// unless it is running; the vault then moves `amount` from idle to the fund
/// on behalf of its manager. Both records change, or neither.
pub open spec fn spec_rbf_subscription(pre: RBFSubscription, amount: u64) -> Result<RBFSubscription, ErrorCode> {
    if pre.rbf.data is None {
        Err(ErrorCode::AccountNotInitialized)
    } else if pre.rbf.key != pre.vault.rbf {
        Err(ErrorCode::InvalidAccount)
    } else {
        match pre.rbf.data->Some_0.spec_record_subscription(amount) {
            Err(code) => Err(code),
            Ok(fund) => match pre.vault.spec_deploy_to_fund(pre.authority == pre.vault.manager, amount) {
                Err(code) => Err(code),
                Ok(vault) => Ok(RBFSubscription { vault, rbf: Account { data: Some(fund), ..pre.rbf }, ..pre }),
            },
        }
    }
}

/// What liquidating `amount` from the fund does. The fund must exist and be
/// the vault's fund. The fund then records the redemption, which it rejects
/// unless it is liquidating; the vault then moves `amount` from the fund back
/// to idle on behalf of its manager or of the fund's risk oracle. Both records
/// change, or neither.
pub open spec fn spec_rbf_liquidation(pre: RBFLiquidation, amount: u64) -> Result<RBFLiquidation, ErrorCode> {
    if pre.rbf.data is None {
        Err(ErrorCode::AccountNotInitialized)
    } else if pre.rbf.key != pre.vault.rbf {
        Err(ErrorCode::InvalidAccount)
    } else {
        match pre.rbf.data->Some_0.spec_record_redemption(amount) {
            Err(code) => Err(code),
            Ok(fund) => match pre.vault.spec_return_from_fund(
                pre.authority == pre.vault.manager || pre.authority == pre.rbf.data->Some_0.drds,
                amount,
            ) {
                Err(code) => Err(code),
                Ok(vault) => Ok(RBFLiquidation { vault, rbf: Account { data: Some(fund), ..pre.rbf }, ..pre }),
            },
        }
    }
}

/// Accounts for a deposit of `amount` made at time `now`. Moving the tokens is
/// the token program's part.
pub fn deposit(ctx: &mut Deposit, amount: u64, now: i64) -> (answer: Result<(), ErrorCode>)
    ensures
        committed(*old(ctx), *final(ctx), answer, spec_deposit(*old(ctx), amount, now)),
{
    ctx.vault.deposit(amount, now)
}

/// Accounts for a withdrawal of `amount` from the idle balance.
pub fn withdraw(ctx: &mut Withdraw, amount: u64) -> (answer: Result<(), ErrorCode>)
    ensures
        committed(*old(ctx), *final(ctx), answer, spec_withdraw(*old(ctx), amount)),
{
    let authority = ctx.authority;
    ctx.vault.withdraw(&authority, amount)
}

/// Moves `amount` from the idle balance to trading.
pub fn vault_add_liquidity(ctx: &mut VaultAddLiquidity, amount: u64) -> (answer: Result<(), ErrorCode>)
    ensures
        committed(*old(ctx), *final(ctx), answer, spec_vault_add_liquidity(*old(ctx), amount)),
{
    let authority = ctx.authority;
    ctx.vault.add_liquidity(&authority, amount)
}

/// Moves `amount` from trading back to the idle balance.
pub fn vault_remove_liquidity(ctx: &mut VaultRemoveLiquidity, amount: u64) -> (answer: Result<(), ErrorCode>)
    ensures
        committed(*old(ctx), *final(ctx), answer, spec_vault_remove_liquidity(*old(ctx), amount)),
{
    let authority = ctx.authority;
    ctx.vault.remove_liquidity(&authority, amount)
}

/// Moves `amount` from the idle balance to the fund and has the fund record
/// the subscription.
pub fn rbf_subscription(ctx: &mut RBFSubscription, amount: u64) -> (answer: Result<(), ErrorCode>)
    ensures
        committed(*old(ctx), *final(ctx), answer, spec_rbf_subscription(*old(ctx), amount)),
{
    let mut fund = match ctx.rbf.data {
        Some(fund) => fund,
        None => {
            return Err(ErrorCode::AccountNotInitialized);
        },
    };
    if ctx.rbf.key != ctx.vault.rbf {
        return Err(ErrorCode::InvalidAccount);
    }
    match fund.record_subscription(amount) {
        Ok(()) => {},
        Err(code) => {
            return Err(code);
        },
    }
    let mut vault = ctx.vault;
    match vault.deploy_to_fund(ctx.authority == ctx.vault.manager, amount) {
        Ok(()) => {},
        Err(code) => {
            return Err(code);
        },
    }
    ctx.vault = vault;
    ctx.rbf.data = Some(fund);
    Ok(())
}

/// Moves `amount` from the fund back to the idle balance and has the fund
/// record the redemption.
pub fn rbf_liquidation(ctx: &mut RBFLiquidation, amount: u64) -> (answer: Result<(), ErrorCode>)
    ensures
        committed(*old(ctx), *final(ctx), answer, spec_rbf_liquidation(*old(ctx), amount)),
{
    let mut fund = match ctx.rbf.data {
        Some(fund) => fund,
        None => {
            return Err(ErrorCode::AccountNotInitialized);
        },
    };
    if ctx.rbf.key != ctx.vault.rbf {
        return Err(ErrorCode::InvalidAccount);
    }
    let oracle = fund.drds;
    match fund.record_redemption(amount) {
        Ok(()) => {},
        Err(code) => {
            return Err(code);
        },
    }
    let mut vault = ctx.vault;
    match vault.return_from_fund(ctx.authority == ctx.vault.manager || ctx.authority == oracle, amount) {
        Ok(()) => {},
        Err(code) => {
            return Err(code);
        },
    }
    ctx.vault = vault;
    ctx.rbf.data = Some(fund);
    Ok(())
}

} // verus!
