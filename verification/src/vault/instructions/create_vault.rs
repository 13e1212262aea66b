//! Creating the vault of a fund.

use vstd::prelude::*;
use crate::account::Account;
use crate::error::{committed, ErrorCode};
use crate::pda::{check_derived, derived_view, matching_bump};
use crate::pubkey::Pubkey;
use crate::rbf::state::RBF;
use crate::vault::state::Vault;

verus! {

/// The records that creating a vault reads and writes.
#[derive(Clone, Copy, Debug, PartialEq, Eq)]
pub struct CreateVault {
    /// The program under which addresses are derived.
    pub program_id: Pubkey,
    /// The caller, who becomes the vault's creator: the fund's manager.
    pub creator: Pubkey,
    /// The place of the vault to be.
    pub vault: Account<Vault>,
    /// The fund that the vault is for.
    pub rbf: Account<RBF>,
}

/// What the creator chooses for a new vault.
#[allow(non_snake_case)]
#[derive(Clone, Copy, Debug, PartialEq, Eq)]
pub struct CreateVaultParams {
    pub manager: Pubkey,
    pub dexBot: Pubkey,
    pub vault_mint: Pubkey,
    pub asset_mint: Pubkey,
    pub vault_treasury: Pubkey,
    pub asset_treasury: Pubkey,
    pub fund_start_time: i64,
    pub fund_end_time: i64,
    pub min_deposit_amount: u64,
}

/// The vault as it is created: linked to the fund, with nothing accounted for.
pub open spec fn spec_new_vault(pre: CreateVault, params: CreateVaultParams) -> Vault {
    Vault {
        creater: pre.creator,
        manager: params.manager,
        dexBot: params.dexBot,
        vault_mint: params.vault_mint,
        asset_mint: params.asset_mint,
        vault_treasury: params.vault_treasury,
        asset_treasury: params.asset_treasury,
        rbf: pre.rbf.key,
        fund_start_time: params.fund_start_time,
        fund_end_time: params.fund_end_time,
        fund_amount: 0,
        rbf_fund_amount: 0,
        dex_fund_amount: 0,
        min_deposit_amount: params.min_deposit_amount,
    }
}

/// What creating a vault does, `bump` being the bump seed of the address of
/// the fund's vault, or `None` where the supplied address is not that address.
/// The fund must exist and must not be bound to a vault; the caller must be
/// the fund's manager; the place must be the address of the fund's vault and
/// must be free. The vault is then stored; the fund is left as it is, to be
/// bound by its manager.
pub open spec fn spec_create_vault(pre: CreateVault, params: CreateVaultParams, bump: Option<u8>) -> Result<CreateVault, ErrorCode> {
    if pre.rbf.data is None {
        Err(ErrorCode::AccountNotInitialized)
    } else if pre.rbf.data->Some_0.vault is Some {
        Err(ErrorCode::VaultAlreadySet)
    } else if pre.creator != pre.rbf.data->Some_0.manager {
        Err(ErrorCode::Unauthorized)
    } else if bump is None {
        Err(ErrorCode::ConstraintSeeds)
    } else if pre.vault.data is Some {
        Err(ErrorCode::AccountAlreadyInUse)
    } else {
        Ok(CreateVault { vault: Account { data: Some(spec_new_vault(pre, params)), ..pre.vault }, ..pre })
    }
}

/// Creates the vault of a fund, given what the address of the fund's vault
/// derives to.
pub fn create_vault(ctx: &mut CreateVault, params: CreateVaultParams, vault_pda: Option<(Pubkey, u8)>) -> (answer: Result<(), ErrorCode>)
    ensures
        committed(
            *old(ctx),
            *final(ctx),
            answer,
            spec_create_vault(*old(ctx), params, matching_bump(old(ctx).vault.key, derived_view(vault_pda))),
        ),
{
    match ctx.rbf.data {
        Some(fund) => {
            if fund.vault.is_some() {
                return Err(ErrorCode::VaultAlreadySet);
            }
            if ctx.creator != fund.manager {
                return Err(ErrorCode::Unauthorized);
            }
        },
        None => {
            return Err(ErrorCode::AccountNotInitialized);
        },
    }
    if check_derived(&ctx.vault.key, &vault_pda).is_none() {
        return Err(ErrorCode::ConstraintSeeds);
    }
    if ctx.vault.data.is_some() {
        return Err(ErrorCode::AccountAlreadyInUse);
    }
    ctx.vault.data = Some(
        Vault {
            creater: ctx.creator,
            manager: params.manager,
            dexBot: params.dexBot,
            vault_mint: params.vault_mint,
            asset_mint: params.asset_mint,
            vault_treasury: params.vault_treasury,
            asset_treasury: params.asset_treasury,
            rbf: ctx.rbf.key,
            fund_start_time: params.fund_start_time,
            fund_end_time: params.fund_end_time,
            fund_amount: 0,
            rbf_fund_amount: 0,
            dex_fund_amount: 0,
            min_deposit_amount: params.min_deposit_amount,
        },
    );
    Ok(())
}

} // verus!
