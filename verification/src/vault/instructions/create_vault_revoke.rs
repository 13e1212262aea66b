//! Taking back a creator's right to deploy vaults.

use vstd::prelude::*;
use crate::account::{Account, Refund};
use crate::error::{committed_with, ErrorCode};
use crate::pda::{check_derived, derived_view, matching_bump};
use crate::pubkey::Pubkey;
use crate::rbf::state::GlobalConfig;
use crate::vault::state::VaultAuth;

verus! {

/// The records that a revocation reads and writes.
#[derive(Clone, Copy, Debug, PartialEq, Eq)]
pub struct CreateVaultRevoke {
    /// The program under which addresses are derived.
    pub program_id: Pubkey,
    pub global_config: GlobalConfig,
    /// The caller, to whom the record's balance goes back.
    pub admin: Pubkey,
    /// The creator's vault delegation record.
    pub vault_auth: Account<VaultAuth>,
    /// The identity whose right is taken back.
    pub creator: Pubkey,
}

/// What a revocation does, `bump` being the bump seed of the creator's vault
/// delegation address, or `None` where the supplied address is not that
/// address. The caller must be the registry's administrator; a record must
/// exist; the record must name the creator; the record must stand at the
/// creator's vault delegation address, with its bump seed. The record is then
/// deleted and its balance is owed to the administrator.
pub open spec fn spec_create_vault_revoke(pre: CreateVaultRevoke, bump: Option<u8>) -> Result<(CreateVaultRevoke, Refund), ErrorCode> {
    if pre.admin != pre.global_config.admin {
        Err(ErrorCode::Unauthorized)
    } else if pre.vault_auth.data is None {
        Err(ErrorCode::AccountNotInitialized)
    } else if pre.vault_auth.data->Some_0.creator != pre.creator {
        Err(ErrorCode::InvalidAuthAccount)
    } else if bump != Some(pre.vault_auth.data->Some_0.bump) {
        Err(ErrorCode::ConstraintSeeds)
    } else {
        Ok(
            (
                CreateVaultRevoke { vault_auth: Account { key: pre.vault_auth.key, lamports: 0, data: None }, ..pre },
                Refund { recipient: pre.admin, lamports: pre.vault_auth.lamports },
            ),
        )
    }
}

/// Deletes the creator's vault delegation record, given what the creator's
/// vault delegation address derives to, and says what is owed to the
/// administrator.
pub fn create_vault_revoke(ctx: &mut CreateVaultRevoke, auth_pda: Option<(Pubkey, u8)>) -> (answer: Result<Refund, ErrorCode>)
    ensures
        committed_with(
            *old(ctx),
            *final(ctx),
            answer,
            spec_create_vault_revoke(*old(ctx), matching_bump(old(ctx).vault_auth.key, derived_view(auth_pda))),
        ),
{
    if ctx.admin != ctx.global_config.admin {
        return Err(ErrorCode::Unauthorized);
    }
    let record = match ctx.vault_auth.data {
        Some(record) => record,
        None => {
            return Err(ErrorCode::AccountNotInitialized);
        },
    };
    if record.creator != ctx.creator {
        return Err(ErrorCode::InvalidAuthAccount);
    }
    match check_derived(&ctx.vault_auth.key, &auth_pda) {
        Some(bump) => {
            if bump != record.bump {
                return Err(ErrorCode::ConstraintSeeds);
            }
        },
        None => {
            return Err(ErrorCode::ConstraintSeeds);
        },
    }
    let refund = Refund { recipient: ctx.admin, lamports: ctx.vault_auth.lamports };
    ctx.vault_auth.lamports = 0;
    ctx.vault_auth.data = None;
    Ok(refund)
}

} // verus!
