//! The records of the vault program: vault delegation records and vaults.

use vstd::prelude::*;
use crate::error::ErrorCode;
use crate::pubkey::Pubkey;

verus! {

/// A vault delegation record: while it exists, `creator` may deploy vaults.
#[derive(Clone, Copy, Debug, PartialEq, Eq)]
pub struct VaultAuth {
    pub creator: Pubkey,
    pub bump: u8,
}

impl VaultAuth {
    /// Bytes that the record's fields take when stored.
    pub const ACCOUNT_SIZE: usize = 32 + 1;
}

/// A vault: the custody and accounting record of one fund.
///
/// `fund_amount` is all that the vault accounts for. Of it, `rbf_fund_amount`
/// is deployed to the fund and `dex_fund_amount` to trading; the rest is idle.
#[allow(non_snake_case)]
#[derive(Clone, Copy, Debug, PartialEq, Eq)]
pub struct Vault {
    pub creater: Pubkey,
    /// The manager, who withdraws and who moves balances to and from the fund.
    pub manager: Pubkey,
    /// The trading bot, who moves balances to and from trading.
    pub dexBot: Pubkey,
    pub vault_mint: Pubkey,
    pub asset_mint: Pubkey,
    pub vault_treasury: Pubkey,
    pub asset_treasury: Pubkey,
    /// The fund that the vault belongs to. It never changes.
    pub rbf: Pubkey,
    /// Deposits are taken from this time on,
    pub fund_start_time: i64,
    /// and up to this time.
    pub fund_end_time: i64,
    pub fund_amount: u64,
    pub rbf_fund_amount: u64,
    pub dex_fund_amount: u64,
    pub min_deposit_amount: u64,
}

impl Vault {
    /// Bytes that the record's fields take when stored.
    pub const ACCOUNT_SIZE: usize = 32 + 32 + 32 + 32 + 32 + 32 + 32 + 32 + 8 + 8 + 8 + 8 + 8 + 8;

    /// The balances are consistent: what is deployed does not exceed what the
    /// vault accounts for.
    pub open spec fn wf(self) -> bool {
        self.rbf_fund_amount + self.dex_fund_amount <= self.fund_amount
    }

    /// The idle balance: what is accounted for and deployed nowhere.
    pub open spec fn spec_idle(self) -> int {
        self.fund_amount - self.rbf_fund_amount - self.dex_fund_amount
    }

    /// The idle balance, or `None` where the balances are inconsistent.
    pub fn idle(&self) -> (idle: Option<u64>)
        ensures
            match idle {
                Some(amount) => self.wf() && amount == self.spec_idle(),
                None => !self.wf(),
            },
    {
        if self.rbf_fund_amount > self.fund_amount {
            return None;
        }
        let rest: u64 = self.fund_amount - self.rbf_fund_amount;
        if self.dex_fund_amount > rest {
            return None;
        }
        Some(rest - self.dex_fund_amount)
    }

    /// A deposit of `amount` at time `now`: rejected below the minimum, then
    /// outside the schedule, then if the accounted balance would overflow.
    /// It raises the accounted balance, and with it the idle balance.
    pub open spec fn spec_deposit(self, amount: u64, now: i64) -> Result<Vault, ErrorCode> {
        if amount < self.min_deposit_amount {
            Err(ErrorCode::DepositTooSmall)
        } else if now < self.fund_start_time || now > self.fund_end_time {
            Err(ErrorCode::OutsideFundingWindow)
        } else if self.fund_amount + amount > u64::MAX {
            Err(ErrorCode::NumericalOverflow)
        } else {
            Ok(Vault { fund_amount: (self.fund_amount + amount) as u64, ..self })
        }
    }

    /// A withdrawal of `amount` by `authority`: rejected where the balances are
    /// inconsistent, then unless `authority` is the manager, then if `amount`
    /// exceeds the idle balance. It lowers the accounted balance, and with it
    /// the idle balance.
    pub open spec fn spec_withdraw(self, authority: Pubkey, amount: u64) -> Result<Vault, ErrorCode> {
        if !self.wf() {
            Err(ErrorCode::InvalidAccount)
        } else if authority != self.manager {
            Err(ErrorCode::Unauthorized)
        } else if amount > self.spec_idle() {
            Err(ErrorCode::InsufficientFunds)
        } else {
            Ok(Vault { fund_amount: (self.fund_amount - amount) as u64, ..self })
        }
    }

    /// Moving `amount` from idle to trading by `authority`: rejected where the
    /// balances are inconsistent, then unless `authority` is the trading bot,
    /// then if `amount` exceeds the idle balance.
    pub open spec fn spec_add_liquidity(self, authority: Pubkey, amount: u64) -> Result<Vault, ErrorCode> {
        if !self.wf() {
            Err(ErrorCode::InvalidAccount)
        } else if authority != self.dexBot {
            Err(ErrorCode::Unauthorized)
        } else if amount > self.spec_idle() {
            Err(ErrorCode::InsufficientFunds)
        } else {
            Ok(Vault { dex_fund_amount: (self.dex_fund_amount + amount) as u64, ..self })
        }
    }

    /// Moving `amount` from trading back to idle by `authority`: rejected where
    /// the balances are inconsistent, then unless `authority` is the trading
    /// bot, then if `amount` exceeds the balance deployed to trading.
    pub open spec fn spec_remove_liquidity(self, authority: Pubkey, amount: u64) -> Result<Vault, ErrorCode> {
        if !self.wf() {
            Err(ErrorCode::InvalidAccount)
        } else if authority != self.dexBot {
            Err(ErrorCode::Unauthorized)
        } else if amount > self.dex_fund_amount {
            Err(ErrorCode::InsufficientFunds)
        } else {
            Ok(Vault { dex_fund_amount: (self.dex_fund_amount - amount) as u64, ..self })
        }
    }

    /// Moving `amount` from idle to the fund: rejected where the balances are
    /// inconsistent, then unless `authorized`, then if `amount` exceeds the
    /// idle balance.
    pub open spec fn spec_deploy_to_fund(self, authorized: bool, amount: u64) -> Result<Vault, ErrorCode> {
        if !self.wf() {
            Err(ErrorCode::InvalidAccount)
        } else if !authorized {
            Err(ErrorCode::Unauthorized)
        } else if amount > self.spec_idle() {
            Err(ErrorCode::InsufficientFunds)
        } else {
            Ok(Vault { rbf_fund_amount: (self.rbf_fund_amount + amount) as u64, ..self })
        }
    }

    /// Moving `amount` from the fund back to idle: rejected where the balances
    /// are inconsistent, then unless `authorized`, then if `amount` exceeds the
    /// balance deployed to the fund.
    pub open spec fn spec_return_from_fund(self, authorized: bool, amount: u64) -> Result<Vault, ErrorCode> {
        if !self.wf() {
            Err(ErrorCode::InvalidAccount)
        } else if !authorized {
            Err(ErrorCode::Unauthorized)
        } else if amount > self.rbf_fund_amount {
            Err(ErrorCode::InsufficientFunds)
        } else {
            Ok(Vault { rbf_fund_amount: (self.rbf_fund_amount - amount) as u64, ..self })
        }
    }

    /// Accounts for a deposit of `amount` made at time `now`.
    pub fn deposit(&mut self, amount: u64, now: i64) -> (answer: Result<(), ErrorCode>)
        ensures
            crate::error::committed(*old(self), *final(self), answer, old(self).spec_deposit(amount, now)),
    {
        if amount < self.min_deposit_amount {
            return Err(ErrorCode::DepositTooSmall);
        }
        if now < self.fund_start_time || now > self.fund_end_time {
            return Err(ErrorCode::OutsideFundingWindow);
        }
        if amount > u64::MAX - self.fund_amount {
            return Err(ErrorCode::NumericalOverflow);
        }
        self.fund_amount = self.fund_amount + amount;
        Ok(())
    }

    /// Accounts for a withdrawal of `amount` from the idle balance.
    pub fn withdraw(&mut self, authority: &Pubkey, amount: u64) -> (answer: Result<(), ErrorCode>)
        ensures
            crate::error::committed(*old(self), *final(self), answer, old(self).spec_withdraw(*authority, amount)),
    {
        let idle: u64 = match self.idle() {
            Some(idle) => idle,
            None => {
                return Err(ErrorCode::InvalidAccount);
            },
        };
        if *authority != self.manager {
            return Err(ErrorCode::Unauthorized);
        }
        if amount > idle {
            return Err(ErrorCode::InsufficientFunds);
        }
        self.fund_amount = self.fund_amount - amount;
        Ok(())
    }

    /// Moves `amount` from the idle balance to trading.
    pub fn add_liquidity(&mut self, authority: &Pubkey, amount: u64) -> (answer: Result<(), ErrorCode>)
        ensures
            crate::error::committed(
                *old(self),
                *final(self),
                answer,
                old(self).spec_add_liquidity(*authority, amount),
            ),
    {
        let idle: u64 = match self.idle() {
            Some(idle) => idle,
            None => {
                return Err(ErrorCode::InvalidAccount);
            },
        };
        if *authority != self.dexBot {
            return Err(ErrorCode::Unauthorized);
        }
        if amount > idle {
            return Err(ErrorCode::InsufficientFunds);
        }
        self.dex_fund_amount = self.dex_fund_amount + amount;
        Ok(())
    }

    /// Moves `amount` from trading back to the idle balance.
    pub fn remove_liquidity(&mut self, authority: &Pubkey, amount: u64) -> (answer: Result<(), ErrorCode>)
        ensures
            crate::error::committed(
                *old(self),
                *final(self),
                answer,
                old(self).spec_remove_liquidity(*authority, amount),
            ),
    {
        if self.idle().is_none() {
            return Err(ErrorCode::InvalidAccount);
        }
        if *authority != self.dexBot {
            return Err(ErrorCode::Unauthorized);
        }
        if amount > self.dex_fund_amount {
            return Err(ErrorCode::InsufficientFunds);
        }
        self.dex_fund_amount = self.dex_fund_amount - amount;
        Ok(())
    }

    /// Moves `amount` from idle to the fund.
    pub fn deploy_to_fund(&mut self, authorized: bool, amount: u64) -> (answer: Result<(), ErrorCode>)
        ensures
            crate::error::committed(*old(self), *final(self), answer, old(self).spec_deploy_to_fund(authorized, amount)),
    {
        let idle: u64 = match self.idle() {
            Some(idle) => idle,
            None => {
                return Err(ErrorCode::InvalidAccount);
            },
        };
        if !authorized {
            return Err(ErrorCode::Unauthorized);
        }
        if amount > idle {
            return Err(ErrorCode::InsufficientFunds);
        }
        self.rbf_fund_amount = self.rbf_fund_amount + amount;
        Ok(())
    }

    /// Moves `amount` from the fund back to idle.
    pub fn return_from_fund(&mut self, authorized: bool, amount: u64) -> (answer: Result<(), ErrorCode>)
        ensures
            crate::error::committed(*old(self), *final(self), answer, old(self).spec_return_from_fund(authorized, amount)),
    {
        if self.idle().is_none() {
            return Err(ErrorCode::InvalidAccount);
        }
        if !authorized {
            return Err(ErrorCode::Unauthorized);
        }
        if amount > self.rbf_fund_amount {
            return Err(ErrorCode::InsufficientFunds);
        }
        self.rbf_fund_amount = self.rbf_fund_amount - amount;
        Ok(())
    }
}

} // verus!
