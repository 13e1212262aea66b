//! The records of the fund program: the registry, delegation records and funds.

use vstd::prelude::*;
use crate::error::ErrorCode;
use crate::pubkey::Pubkey;

verus! {

/// The registry: the administrator and the nonce that the next fund will take.
#[derive(Clone, Copy, Debug, PartialEq, Eq)]
pub struct GlobalConfig {
    pub admin: Pubkey,
    pub rbf_nonce: u64,
    pub bump: u8,
}

impl GlobalConfig {
    /// Bytes that the record's fields take when stored.
    pub const ACCOUNT_SIZE: usize = 32 + 8 + 1;

    /// What allocating a fund slot gives: the nonce in use before the call, and
    /// the registry with the nonce one higher; a rejection when the nonce is at
    /// its maximum.
    pub open spec fn spec_allocate_fund_slot(self) -> Result<(u64, GlobalConfig), ErrorCode> {
        if self.rbf_nonce == u64::MAX {
            Err(ErrorCode::NumericalOverflow)
        } else {
            Ok((self.rbf_nonce, GlobalConfig { rbf_nonce: (self.rbf_nonce + 1) as u64, ..self }))
        }
    }

    /// Hands out the current nonce and moves the registry on to the next one.
    pub fn allocate_fund_slot(&mut self) -> (slot: Result<u64, ErrorCode>)
        ensures
            match old(self).spec_allocate_fund_slot() {
                Ok((nonce, next)) => slot == Ok::<u64, ErrorCode>(nonce) && *final(self) == next,
                Err(code) => slot == Err::<u64, ErrorCode>(code) && *final(self) == *old(self),
            },
    {
        if self.rbf_nonce == u64::MAX {
            return Err(ErrorCode::NumericalOverflow);
        }
        let nonce: u64 = self.rbf_nonce;
        self.rbf_nonce = nonce + 1;
        Ok(nonce)
    }
}

/// A delegation record: while it exists, `creator` may create funds.
#[derive(Clone, Copy, Debug, PartialEq, Eq)]
pub struct RbfAuth {
    pub creator: Pubkey,
    pub bump: u8,
}

impl RbfAuth {
    /// Bytes that the record's fields take when stored.
    pub const ACCOUNT_SIZE: usize = 32 + 1;
}

/// Where a fund stands in its life. The only move is from `Running` to `Liquidating`.
#[derive(Clone, Copy, Debug, PartialEq, Eq, Structural, Hash)]
pub enum RBFStatus {
    Running,
    Liquidating,
}

/// A fund.
#[derive(Clone, Copy, Debug, PartialEq, Eq)]
pub struct RBF {
    /// The creator of the fund.
    pub creater: Pubkey,
    /// The manager, the one identity that may bind the vault.
    pub manager: Pubkey,
    /// The risk oracle, the one identity that may open redemption.
    pub drds: Pubkey,
    /// The mint of the asset token.
    pub asset_mint: Pubkey,
    /// The mint of the fund's shares.
    pub rbf_mint: Pubkey,
    /// The custody account that holds the fund's assets.
    pub asset_treasury: Pubkey,
    /// The account that asset withdrawals are paid to.
    pub asset_recipient: Pubkey,
    /// The vault bound to the fund, once one is.
    pub vault: Option<Pubkey>,
    /// All that was ever subscribed.
    pub total_subscription: u64,
    /// All that was ever redeemed.
    pub total_redemption: u64,
    /// The slippage tolerated in liquidation.
    pub liquidation_slippage: u64,
    pub status: RBFStatus,
    /// The bump seed of the fund's derived address.
    pub bump: u8,
}

impl RBF {
    /// Bytes that the record's fields take when stored.
    pub const ACCOUNT_SIZE: usize = 32 + 32 + 32 + 32 + 32 + 32 + 32 + 1 + 32 + 8 + 8 + 8 + 1 + 1;

    /// Binding `new_vault` on behalf of `authority`: rejected once a vault is
    /// bound, then unless `authority` is the manager.
    pub open spec fn spec_bind_vault(self, authority: Pubkey, new_vault: Pubkey) -> Result<RBF, ErrorCode> {
        if self.vault is Some {
            Err(ErrorCode::VaultAlreadySet)
        } else if authority != self.manager {
            Err(ErrorCode::Unauthorized)
        } else {
            Ok(RBF { vault: Some(new_vault), ..self })
        }
    }

    /// Opening redemption on behalf of `authority`: rejected unless the fund is
    /// running, then unless `authority` is the risk oracle.
    pub open spec fn spec_open_redemption(self, authority: Pubkey) -> Result<RBF, ErrorCode> {
        if self.status != RBFStatus::Running {
            Err(ErrorCode::InvalidRBFStatus)
        } else if authority != self.drds {
            Err(ErrorCode::Unauthorized)
        } else {
            Ok(RBF { status: RBFStatus::Liquidating, ..self })
        }
    }

    /// Recording a subscription of `amount`: rejected unless the fund is running,
    /// then if the total would overflow.
    pub open spec fn spec_record_subscription(self, amount: u64) -> Result<RBF, ErrorCode> {
        if self.status != RBFStatus::Running {
            Err(ErrorCode::InvalidRBFStatus)
        } else if self.total_subscription + amount > u64::MAX {
            Err(ErrorCode::NumericalOverflow)
        } else {
            Ok(RBF { total_subscription: (self.total_subscription + amount) as u64, ..self })
        }
    }

    /// Recording a redemption of `amount`: rejected unless the fund is
    /// liquidating, then if the total would overflow.
    pub open spec fn spec_record_redemption(self, amount: u64) -> Result<RBF, ErrorCode> {
        if self.status != RBFStatus::Liquidating {
            Err(ErrorCode::InvalidRBFStatus)
        } else if self.total_redemption + amount > u64::MAX {
            Err(ErrorCode::NumericalOverflow)
        } else {
            Ok(RBF { total_redemption: (self.total_redemption + amount) as u64, ..self })
        }
    }

    /// Adds `amount` to the fund's total subscription. This is the one place
    /// that holds subscriptions to the running status.
    pub fn record_subscription(&mut self, amount: u64) -> (answer: Result<(), ErrorCode>)
        ensures
            crate::error::committed(*old(self), *final(self), answer, old(self).spec_record_subscription(amount)),
    {
        match self.status {
            RBFStatus::Running => {},
            RBFStatus::Liquidating => {
                return Err(ErrorCode::InvalidRBFStatus);
            },
        }
        if amount > u64::MAX - self.total_subscription {
            return Err(ErrorCode::NumericalOverflow);
        }
        self.total_subscription = self.total_subscription + amount;
        Ok(())
    }

    /// Adds `amount` to the fund's total redemption. This is the one place that
    /// holds redemptions to the liquidating status.
    pub fn record_redemption(&mut self, amount: u64) -> (answer: Result<(), ErrorCode>)
        ensures
            crate::error::committed(*old(self), *final(self), answer, old(self).spec_record_redemption(amount)),
    {
        match self.status {
            RBFStatus::Liquidating => {},
            RBFStatus::Running => {
                return Err(ErrorCode::InvalidRBFStatus);
            },
        }
        if amount > u64::MAX - self.total_redemption {
            return Err(ErrorCode::NumericalOverflow);
        }
        self.total_redemption = self.total_redemption + amount;
        Ok(())
    }
}

} // verus!
