//! The router: one door to the deployment operations of the fund program and
//! of the vault program. It keeps no state of its own.

use vstd::prelude::*;
use crate::account::{Account, Refund};
use crate::error::{committed, committed_with, ErrorCode};
use crate::pda::{check_derived, derived_view, find_vault_address, find_vault_auth_address, matching_bump};
use crate::pubkey::Pubkey;
use crate::rbf::instructions::create_rbf::{spec_create_rbf, CreateRbf, FundSetup, RbfInitParams};
use crate::rbf::{global_config_bump, next_rbf_bump, rbf_auth_bump};
use crate::vault::instructions::create_vault::{spec_create_vault, CreateVault, CreateVaultParams};
use crate::vault::instructions::create_vault_auth::{
    holds_vault_permission, spec_create_vault_auth, spec_holds_vault_permission, CreateVaultAuth,
};
use crate::vault::instructions::create_vault_revoke::{spec_create_vault_revoke, CreateVaultRevoke};
use crate::vault::state::VaultAuth;
use crate::vault::{vault_auth_bump, vault_bump};

verus! {

/// The records that deploying a vault reads and writes: the creator's vault
/// delegation record, and what creating the vault needs.
#[derive(Clone, Copy, Debug, PartialEq, Eq)]
pub struct VaultDeploy {
    pub vault_auth: Account<VaultAuth>,
    pub create: CreateVault,
}

/// What deploying a vault does: the creator must hold vault deployment
/// permission; the vault is then created as `spec_create_vault` says.
pub open spec fn spec_vault_deploy(
    pre: VaultDeploy,
    params: CreateVaultParams,
    auth_bump: Option<u8>,
    vault_bump: Option<u8>,
) -> Result<VaultDeploy, ErrorCode> {
    if !spec_holds_vault_permission(pre.vault_auth, pre.create.creator, auth_bump) {
        Err(ErrorCode::InvalidAuthAccount)
    } else {
        match spec_create_vault(pre.create, params, vault_bump) {
            Ok(create) => Ok(VaultDeploy { create, ..pre }),
            Err(code) => Err(code),
        }
    }
}

/// Deploys a fund: forwards to the fund program's creation of a fund.
pub fn rbf_deploy(ctx: &mut CreateRbf, params: RbfInitParams) -> (answer: Result<FundSetup, ErrorCode>)
    ensures
        committed_with(
            *old(ctx),
            *final(ctx),
            answer,
            spec_create_rbf(
                *old(ctx),
                params,
                global_config_bump(old(ctx).global_config.key, old(ctx).program_id),
                rbf_auth_bump(old(ctx).rbf_auth.key, old(ctx).creator, old(ctx).program_id),
                next_rbf_bump(*old(ctx)),
            ),
        ),
{
    crate::rbf::create_rbf(ctx, params)
}

/// Grants vault deployment permission: forwards to the vault program's grant.
pub fn vault_deploy_auth(ctx: &mut CreateVaultAuth) -> (answer: Result<(), ErrorCode>)
    ensures
        committed(
            *old(ctx),
            *final(ctx),
            answer,
            spec_create_vault_auth(
                *old(ctx),
                vault_auth_bump(old(ctx).vault_auth.key, old(ctx).creator, old(ctx).program_id),
            ),
        ),
{
    crate::vault::create_vault_auth(ctx)
}

/// Takes vault deployment permission back: forwards to the vault program's
/// revocation.
pub fn vault_deploy_revoke(ctx: &mut CreateVaultRevoke) -> (answer: Result<Refund, ErrorCode>)
    ensures
        committed_with(
            *old(ctx),
            *final(ctx),
            answer,
            spec_create_vault_revoke(
                *old(ctx),
                vault_auth_bump(old(ctx).vault_auth.key, old(ctx).creator, old(ctx).program_id),
            ),
        ),
{
    crate::vault::create_vault_revoke(ctx)
}

/// Deploys a vault, given what the creator's vault delegation address and the
/// address of the fund's vault derive to.
pub fn vault_deploy_derived(
    ctx: &mut VaultDeploy,
    params: CreateVaultParams,
    auth_pda: Option<(Pubkey, u8)>,
    vault_pda: Option<(Pubkey, u8)>,
) -> (answer: Result<(), ErrorCode>)
    ensures
        committed(
            *old(ctx),
            *final(ctx),
            answer,
            spec_vault_deploy(
                *old(ctx),
                params,
                matching_bump(old(ctx).vault_auth.key, derived_view(auth_pda)),
                matching_bump(old(ctx).create.vault.key, derived_view(vault_pda)),
            ),
        ),
{
    let auth_bump = check_derived(&ctx.vault_auth.key, &auth_pda);
    if !holds_vault_permission(&ctx.vault_auth, &ctx.create.creator, auth_bump) {
        return Err(ErrorCode::InvalidAuthAccount);
    }
    crate::vault::instructions::create_vault::create_vault(&mut ctx.create, params, vault_pda)
}

/// Deploys a vault for a creator who holds vault deployment permission:
/// forwards to the vault program's creation of a vault.
pub fn vault_deploy(ctx: &mut VaultDeploy, params: CreateVaultParams) -> (answer: Result<(), ErrorCode>)
    ensures
        committed(
            *old(ctx),
            *final(ctx),
            answer,
            spec_vault_deploy(
                *old(ctx),
                params,
                vault_auth_bump(old(ctx).vault_auth.key, old(ctx).create.creator, old(ctx).create.program_id),
                vault_bump(old(ctx).create.vault.key, old(ctx).create.rbf.key, old(ctx).create.program_id),
            ),
        ),
{
    let auth_pda = find_vault_auth_address(&ctx.create.creator, &ctx.create.program_id);
    let vault_pda = find_vault_address(&ctx.create.rbf.key, &ctx.create.program_id);
    vault_deploy_derived(ctx, params, auth_pda, vault_pda)
}

} // verus!
