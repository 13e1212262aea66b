//! Granting a creator the right to deploy vaults.

use vstd::prelude::*;
use crate::account::Account;
use crate::error::{committed, ErrorCode};
use crate::pda::{check_derived, derived_view, matching_bump};
use crate::pubkey::Pubkey;
use crate::rbf::state::GlobalConfig;
use crate::vault::state::VaultAuth;

verus! {

/// The records that a grant reads and writes.
#[derive(Clone, Copy, Debug, PartialEq, Eq)]
pub struct CreateVaultAuth {
    /// The program under which addresses are derived.
    pub program_id: Pubkey,
    pub global_config: GlobalConfig,
    /// The caller.
    pub admin: Pubkey,
    /// The place of the creator's vault delegation record.
    pub vault_auth: Account<VaultAuth>,
    /// The identity that is granted the right.
    pub creator: Pubkey,
}

/// Whether `slot` holds a vault delegation record for `creator`: a record
/// exists, `slot` is the creator's vault delegation address (`bump` is then
/// its bump seed), and the record names that creator and that bump seed.
pub open spec fn spec_holds_vault_permission(slot: Account<VaultAuth>, creator: Pubkey, bump: Option<u8>) -> bool {
    &&& slot.data matches Some(record)
    &&& bump == Some(record.bump)
    &&& record.creator == creator
}

/// Whether the creator holds vault deployment permission through `slot`.
pub fn holds_vault_permission(slot: &Account<VaultAuth>, creator: &Pubkey, bump: Option<u8>) -> (held: bool)
    ensures
        held == spec_holds_vault_permission(*slot, *creator, bump),
{
    match (&slot.data, bump) {
        (Some(record), Some(derived)) => record.bump == derived && record.creator == *creator,
        _ => false,
    }
}

/// What a grant does, `bump` being the bump seed of the creator's vault
/// delegation address, or `None` where the supplied address is not that
/// address. The caller must be the registry's administrator; the place must be
/// the creator's vault delegation address and must be free. The record is then
/// stored.
pub open spec fn spec_create_vault_auth(pre: CreateVaultAuth, bump: Option<u8>) -> Result<CreateVaultAuth, ErrorCode> {
    if pre.admin != pre.global_config.admin {
        Err(ErrorCode::Unauthorized)
    } else if bump is None {
        Err(ErrorCode::ConstraintSeeds)
    } else if pre.vault_auth.data is Some {
        Err(ErrorCode::AccountAlreadyInUse)
    } else {
        Ok(
            CreateVaultAuth {
                vault_auth: Account {
                    data: Some(VaultAuth { creator: pre.creator, bump: bump->Some_0 }),
                    ..pre.vault_auth
                },
                ..pre
            },
        )
    }
}

/// Grants the creator the right to deploy vaults, given what the creator's
/// vault delegation address derives to.
pub fn create_vault_auth(ctx: &mut CreateVaultAuth, auth_pda: Option<(Pubkey, u8)>) -> (answer: Result<(), ErrorCode>)
    ensures
        committed(
            *old(ctx),
            *final(ctx),
            answer,
            spec_create_vault_auth(*old(ctx), matching_bump(old(ctx).vault_auth.key, derived_view(auth_pda))),
        ),
{
    if ctx.admin != ctx.global_config.admin {
        return Err(ErrorCode::Unauthorized);
    }
    let bump: u8 = match check_derived(&ctx.vault_auth.key, &auth_pda) {
        Some(bump) => bump,
        None => {
            return Err(ErrorCode::ConstraintSeeds);
        },
    };
    if ctx.vault_auth.data.is_some() {
        return Err(ErrorCode::AccountAlreadyInUse);
    }
    ctx.vault_auth.data = Some(VaultAuth { creator: ctx.creator, bump });
    Ok(())
}

} // verus!
