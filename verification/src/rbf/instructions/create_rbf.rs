//! Creating a fund.

use vstd::prelude::*;
use crate::account::{Account, AccountInfo, TokenAccount};
use crate::error::{committed_with, ErrorCode};
use crate::pda::{check_derived, derived_view, matching_bump};
use crate::pubkey::Pubkey;
use crate::rbf::state::{GlobalConfig, RbfAuth, RBFStatus, RBF};

verus! {

/// The records that creating a fund reads and writes.
#[derive(Clone, Copy, Debug, PartialEq, Eq)]
pub struct CreateRbf {
    /// The program under which addresses are derived.
    pub program_id: Pubkey,
    /// The caller, who becomes the fund's creator.
    pub creator: Pubkey,
    /// The registry, whose nonce the fund takes.
    pub global_config: Account<GlobalConfig>,
    /// The creator's delegation record.
    pub rbf_auth: Account<RbfAuth>,
    /// The place of the fund to be.
    pub rbf: Account<RBF>,
    /// The mint of the fund's shares, whose minting authority is the fund.
    pub rbf_mint: Pubkey,
    pub manager: AccountInfo,
    pub drds: AccountInfo,
    pub asset_mint: AccountInfo,
    /// The custody account of the fund's assets. It is absent while it stores
    /// nothing.
    pub asset_treasury: AccountInfo,
    pub asset_recipient: TokenAccount,
}

/// What the creator chooses for a new fund.
#[derive(Clone, Copy, Debug, PartialEq, Eq)]
pub struct RbfInitParams {
    pub liquidation_slippage: u64,
}

/// What the token program is to set up for a new fund.
#[derive(Clone, Copy, Debug, PartialEq, Eq)]
pub struct FundSetup {
    /// The mint of the fund's shares, to be created
    pub rbf_mint: Pubkey,
    /// with the fund itself as its minting authority
    pub mint_authority: Pubkey,
    /// and this many decimals.
    pub mint_decimals: u8,
    /// The custody account of the fund's assets,
    pub asset_treasury: Pubkey,
    /// holding tokens of this mint
    pub asset_mint: Pubkey,
    /// under the fund's authority,
    pub treasury_authority: Pubkey,
    /// to be created where it is absent.
    pub create_treasury: bool,
}

/// The decimals of every fund's share mint.
pub const RBF_MINT_DECIMALS: u8 = 6;

/// Whether `slot` holds a delegation record for `creator`: a record exists,
/// `slot` is the creator's delegation address (`bump` is then its bump seed),
/// and the record names that creator and that bump seed.
pub open spec fn spec_holds_permission(slot: Account<RbfAuth>, creator: Pubkey, bump: Option<u8>) -> bool {
    &&& slot.data matches Some(record)
    &&& bump == Some(record.bump)
    &&& record.creator == creator
}

/// Whether the creator holds creation permission through `slot`.
pub fn holds_permission(slot: &Account<RbfAuth>, creator: &Pubkey, bump: Option<u8>) -> (held: bool)
    ensures
        held == spec_holds_permission(*slot, *creator, bump),
{
    match (&slot.data, bump) {
        (Some(record), Some(derived)) => record.bump == derived && record.creator == *creator,
        _ => false,
    }
}

/// Whether the accounts that the creator refers to can serve a fund: manager,
/// risk oracle and asset mint are live, and the recipient stores something and
/// holds the asset mint's tokens.
pub open spec fn spec_references_valid(pre: CreateRbf) -> bool {
    &&& pre.manager.is_live()
    &&& pre.drds.is_live()
    &&& pre.asset_mint.is_live()
    &&& pre.asset_recipient.info.data_len > 0
    &&& pre.asset_recipient.mint == pre.asset_mint.key
}

/// The fund as it is created: nothing bound, nothing subscribed or redeemed, running.
pub open spec fn spec_new_rbf(pre: CreateRbf, params: RbfInitParams, bump: u8) -> RBF {
    RBF {
        creater: pre.creator,
        manager: pre.manager.key,
        drds: pre.drds.key,
        asset_mint: pre.asset_mint.key,
        rbf_mint: pre.rbf_mint,
        asset_treasury: pre.asset_treasury.key,
        asset_recipient: pre.asset_recipient.info.key,
        vault: None,
        total_subscription: 0,
        total_redemption: 0,
        liquidation_slippage: params.liquidation_slippage,
        status: RBFStatus::Running,
        bump,
    }
}

/// What the token program is asked for when the fund is created: the share
/// mint under the fund's authority, and the custody account if it is absent.
pub open spec fn spec_fund_setup(pre: CreateRbf) -> FundSetup {
    FundSetup {
        rbf_mint: pre.rbf_mint,
        mint_authority: pre.rbf.key,
        mint_decimals: RBF_MINT_DECIMALS,
        asset_treasury: pre.asset_treasury.key,
        asset_mint: pre.asset_mint.key,
        treasury_authority: pre.rbf.key,
        create_treasury: pre.asset_treasury.data_len == 0,
    }
}

/// What creating a fund does. Each bump is that of the account's derived
/// address, or `None` where the supplied address is not the derived one; the
/// fund's address is derived from the creator and the registry's current nonce.
///
/// In order: the creator must hold permission; the registry must exist, at its
/// address and with its bump seed; the nonce must not be at its maximum; the
/// fund's place must be the derived address and must be free; the referenced
/// accounts must be valid. Then the fund is stored, the nonce moves on, and
/// the answer says what the token program is to set up.
pub open spec fn spec_create_rbf(
    pre: CreateRbf,
    params: RbfInitParams,
    config_bump: Option<u8>,
    auth_bump: Option<u8>,
    rbf_bump: Option<u8>,
) -> Result<(CreateRbf, FundSetup), ErrorCode> {
    if !spec_holds_permission(pre.rbf_auth, pre.creator, auth_bump) {
        Err(ErrorCode::InvalidAuthAccount)
    } else if pre.global_config.data is None {
        Err(ErrorCode::AccountNotInitialized)
    } else if config_bump != Some(pre.global_config.data->Some_0.bump) {
        Err(ErrorCode::ConstraintSeeds)
    } else {
        match pre.global_config.data->Some_0.spec_allocate_fund_slot() {
            Err(code) => Err(code),
            Ok((nonce, next)) => if rbf_bump is None {
                Err(ErrorCode::ConstraintSeeds)
            } else if pre.rbf.data is Some {
                Err(ErrorCode::AccountAlreadyInUse)
            } else if !spec_references_valid(pre) {
                Err(ErrorCode::InvalidAccount)
            } else {
                Ok(
                    (
                        CreateRbf {
                            global_config: Account { data: Some(next), ..pre.global_config },
                            rbf: Account { data: Some(spec_new_rbf(pre, params, rbf_bump->Some_0)), ..pre.rbf },
                            ..pre
                        },
                        spec_fund_setup(pre),
                    ),
                )
            },
        }
    }
}

/// Creates a fund, given what the three addresses derive to: the registry's,
/// the creator's delegation record's, and the fund's under the registry's
/// current nonce.
pub fn create_rbf(
    ctx: &mut CreateRbf,
    params: RbfInitParams,
    config_pda: Option<(Pubkey, u8)>,
    auth_pda: Option<(Pubkey, u8)>,
    rbf_pda: Option<(Pubkey, u8)>,
) -> (answer: Result<FundSetup, ErrorCode>)
    ensures
        committed_with(
            *old(ctx),
            *final(ctx),
            answer,
            spec_create_rbf(
                *old(ctx),
                params,
                matching_bump(old(ctx).global_config.key, derived_view(config_pda)),
                matching_bump(old(ctx).rbf_auth.key, derived_view(auth_pda)),
                matching_bump(old(ctx).rbf.key, derived_view(rbf_pda)),
            ),
        ),
{
    let auth_bump = check_derived(&ctx.rbf_auth.key, &auth_pda);
    if !holds_permission(&ctx.rbf_auth, &ctx.creator, auth_bump) {
        return Err(ErrorCode::InvalidAuthAccount);
    }
    let mut config = match ctx.global_config.data {
        Some(config) => config,
        None => {
            return Err(ErrorCode::AccountNotInitialized);
        },
    };
    match check_derived(&ctx.global_config.key, &config_pda) {
        Some(bump) => {
            if bump != config.bump {
                return Err(ErrorCode::ConstraintSeeds);
            }
        },
        None => {
            return Err(ErrorCode::ConstraintSeeds);
        },
    }
    match config.allocate_fund_slot() {
        Ok(_) => {},
        Err(code) => {
            return Err(code);
        },
    }
    let bump: u8 = match check_derived(&ctx.rbf.key, &rbf_pda) {
        Some(bump) => bump,
        None => {
            return Err(ErrorCode::ConstraintSeeds);
        },
    };
    if ctx.rbf.data.is_some() {
        return Err(ErrorCode::AccountAlreadyInUse);
    }
    if !(ctx.manager.is_live() && ctx.drds.is_live() && ctx.asset_mint.is_live()
        && ctx.asset_recipient.info.data_len > 0 && ctx.asset_recipient.mint
        == ctx.asset_mint.key) {
        return Err(ErrorCode::InvalidAccount);
    }
    ctx.rbf.data = Some(
        RBF {
            creater: ctx.creator,
            manager: ctx.manager.key,
            drds: ctx.drds.key,
            asset_mint: ctx.asset_mint.key,
            rbf_mint: ctx.rbf_mint,
            asset_treasury: ctx.asset_treasury.key,
            asset_recipient: ctx.asset_recipient.info.key,
            vault: None,
            total_subscription: 0,
            total_redemption: 0,
            liquidation_slippage: params.liquidation_slippage,
            status: RBFStatus::Running,
            bump,
        },
    );
    ctx.global_config.data = Some(config);
    Ok(
        FundSetup {
            rbf_mint: ctx.rbf_mint,
            mint_authority: ctx.rbf.key,
            mint_decimals: RBF_MINT_DECIMALS,
            asset_treasury: ctx.asset_treasury.key,
            asset_mint: ctx.asset_mint.key,
            treasury_authority: ctx.rbf.key,
            create_treasury: ctx.asset_treasury.data_len == 0,
        },
    )
}

} // verus!
