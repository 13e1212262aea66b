//! The vault program: vault delegation, vault creation and the accounting of
//! each vault's balances. Each entry that stores or deletes a record derives
//! the record's address and hands it to the operation in `instructions`.

pub mod accounting;
pub mod instructions;
pub mod layout;
pub mod state;

pub use crate::vault::accounting::{
    deposit, rbf_liquidation, rbf_subscription, vault_add_liquidity, vault_remove_liquidity, withdraw,
    Deposit, RBFLiquidation, RBFSubscription, VaultAddLiquidity, VaultRemoveLiquidity, Withdraw,
};
pub use crate::vault::instructions::create_vault::{CreateVault, CreateVaultParams};
pub use crate::vault::instructions::create_vault_auth::CreateVaultAuth;
pub use crate::vault::instructions::create_vault_revoke::CreateVaultRevoke;
pub use crate::vault::state::{Vault, VaultAuth};

use vstd::prelude::*;
use crate::account::Refund;
use crate::error::{committed, committed_with, ErrorCode};
use crate::pda::{
    find_vault_address, find_vault_auth_address, matching_bump, program_address, vault_auth_seeds, vault_seeds,
};
use crate::pubkey::Pubkey;
use crate::vault::instructions::create_vault::spec_create_vault;
use crate::vault::instructions::create_vault_auth::spec_create_vault_auth;
use crate::vault::instructions::create_vault_revoke::spec_create_vault_revoke;

verus! {

/// The bump seed of `creator`'s vault delegation address under `program_id`,
/// where `key` is that address.
pub open spec fn vault_auth_bump(key: Pubkey, creator: Pubkey, program_id: Pubkey) -> Option<u8> {
    matching_bump(key, program_address(vault_auth_seeds(creator), program_id@))
}

/// The bump seed of the address of the vault of the fund at `rbf` under
/// `program_id`, where `key` is that address.
pub open spec fn vault_bump(key: Pubkey, rbf: Pubkey, program_id: Pubkey) -> Option<u8> {
    matching_bump(key, program_address(vault_seeds(rbf), program_id@))
}

/// Stores a vault delegation record for the creator at the creator's derived
/// vault delegation address.
pub fn create_vault_auth(ctx: &mut CreateVaultAuth) -> (answer: Result<(), ErrorCode>)
    ensures
        committed(
            *old(ctx),
            *final(ctx),
            answer,
            spec_create_vault_auth(
                *old(ctx),
                vault_auth_bump(old(ctx).vault_auth.key, old(ctx).creator, old(ctx).program_id),
            ),
        ),
{
    let auth_pda = find_vault_auth_address(&ctx.creator, &ctx.program_id);
    instructions::create_vault_auth::create_vault_auth(ctx, auth_pda)
}

/// Deletes the creator's vault delegation record and says what is owed to the
/// administrator.
pub fn create_vault_revoke(ctx: &mut CreateVaultRevoke) -> (answer: Result<Refund, ErrorCode>)
    ensures
        committed_with(
            *old(ctx),
            *final(ctx),
            answer,
            spec_create_vault_revoke(
                *old(ctx),
                vault_auth_bump(old(ctx).vault_auth.key, old(ctx).creator, old(ctx).program_id),
            ),
        ),
{
    let auth_pda = find_vault_auth_address(&ctx.creator, &ctx.program_id);
    instructions::create_vault_revoke::create_vault_revoke(ctx, auth_pda)
}

/// Creates the vault of a fund at the address derived from the fund's address.
pub fn create_vault(ctx: &mut CreateVault, params: CreateVaultParams) -> (answer: Result<(), ErrorCode>)
    ensures
        committed(
            *old(ctx),
            *final(ctx),
            answer,
            spec_create_vault(*old(ctx), params, vault_bump(old(ctx).vault.key, old(ctx).rbf.key, old(ctx).program_id)),
        ),
{
    let vault_pda = find_vault_address(&ctx.rbf.key, &ctx.program_id);
    instructions::create_vault::create_vault(ctx, params, vault_pda)
}

} // verus!
