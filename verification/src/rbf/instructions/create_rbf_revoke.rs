//! Taking back a creator's right to create funds.

use vstd::prelude::*;
use crate::account::{Account, Refund};
use crate::error::{committed_with, ErrorCode};
use crate::pda::{check_derived, derived_view, matching_bump};
use crate::pubkey::Pubkey;
use crate::rbf::state::{GlobalConfig, RbfAuth};

verus! {

/// The records that a revocation reads and writes.
#[derive(Clone, Copy, Debug, PartialEq, Eq)]
pub struct CreateRbfRevoke {
    /// The program under which addresses are derived.
    pub program_id: Pubkey,
    pub global_config: GlobalConfig,
    /// The caller, to whom the record's balance goes back.
    pub admin: Pubkey,
    /// The creator's delegation record.
    pub rbf_auth: Account<RbfAuth>,
    /// The identity whose right is taken back.
    pub creator: Pubkey,
}

/// What a revocation does, `bump` being the bump seed of the creator's
/// delegation address, or `None` where the supplied address is not that
/// address. The caller must be the registry's administrator; a record must
/// exist; the record must name the creator; the record must stand at the
/// creator's delegation address, with its bump seed. The record is then
/// deleted and its balance is owed to the administrator.
pub open spec fn spec_revoke_rbf_auth(pre: CreateRbfRevoke, bump: Option<u8>) -> Result<(CreateRbfRevoke, Refund), ErrorCode> {
    if pre.admin != pre.global_config.admin {
        Err(ErrorCode::Unauthorized)
    } else if pre.rbf_auth.data is None {
        Err(ErrorCode::AccountNotInitialized)
    } else if pre.rbf_auth.data->Some_0.creator != pre.creator {
        Err(ErrorCode::InvalidAuthAccount)
    } else if bump != Some(pre.rbf_auth.data->Some_0.bump) {
        Err(ErrorCode::ConstraintSeeds)
    } else {
        Ok(
            (
                CreateRbfRevoke { rbf_auth: Account { key: pre.rbf_auth.key, lamports: 0, data: None }, ..pre },
                Refund { recipient: pre.admin, lamports: pre.rbf_auth.lamports },
            ),
        )
    }
}

/// Deletes the creator's delegation record, given what the creator's
/// delegation address derives to, and says what is owed to the administrator.
pub fn revoke_rbf_auth(ctx: &mut CreateRbfRevoke, auth_pda: Option<(Pubkey, u8)>) -> (answer: Result<Refund, ErrorCode>)
    ensures
        committed_with(
            *old(ctx),
            *final(ctx),
            answer,
            spec_revoke_rbf_auth(*old(ctx), matching_bump(old(ctx).rbf_auth.key, derived_view(auth_pda))),
        ),
{
    if ctx.admin != ctx.global_config.admin {
        return Err(ErrorCode::Unauthorized);
    }
    let record = match ctx.rbf_auth.data {
        Some(record) => record,
        None => {
            return Err(ErrorCode::AccountNotInitialized);
        },
    };
    if record.creator != ctx.creator {
        return Err(ErrorCode::InvalidAuthAccount);
    }
    match check_derived(&ctx.rbf_auth.key, &auth_pda) {
        Some(bump) => {
            if bump != record.bump {
                return Err(ErrorCode::ConstraintSeeds);
            }
        },
        None => {
            return Err(ErrorCode::ConstraintSeeds);
        },
    }
    let refund = Refund { recipient: ctx.admin, lamports: ctx.rbf_auth.lamports };
    ctx.rbf_auth.lamports = 0;
    ctx.rbf_auth.data = None;
    Ok(refund)
}

} // verus!
