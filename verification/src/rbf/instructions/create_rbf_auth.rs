//! Granting a creator the right to create funds.

use vstd::prelude::*;
use crate::account::Account;
use crate::error::{committed, ErrorCode};
use crate::pda::{check_derived, derived_view, matching_bump};
use crate::pubkey::Pubkey;
use crate::rbf::state::{GlobalConfig, RbfAuth};

verus! {

/// The records that a grant reads and writes.
#[derive(Clone, Copy, Debug, PartialEq, Eq)]
pub struct CreateRbfAuth {
    /// The program under which addresses are derived.
    pub program_id: Pubkey,
    pub global_config: GlobalConfig,
    /// The caller.
    pub admin: Pubkey,
    /// The place of the creator's delegation record.
    pub rbf_auth: Account<RbfAuth>,
    /// The identity that is granted the right.
    pub creator: Pubkey,
}

/// What a grant does, `bump` being the bump seed of the creator's delegation
/// address, or `None` where the supplied address is not that address. The
/// caller must be the registry's administrator; the place must be the
/// creator's delegation address and must be free. The record is then stored.
pub open spec fn spec_create_rbf_auth(pre: CreateRbfAuth, bump: Option<u8>) -> Result<CreateRbfAuth, ErrorCode> {
    if pre.admin != pre.global_config.admin {
        Err(ErrorCode::Unauthorized)
    } else if bump is None {
        Err(ErrorCode::ConstraintSeeds)
    } else if pre.rbf_auth.data is Some {
        Err(ErrorCode::AccountAlreadyInUse)
    } else {
        Ok(
            CreateRbfAuth {
                rbf_auth: Account {
                    data: Some(RbfAuth { creator: pre.creator, bump: bump->Some_0 }),
                    ..pre.rbf_auth
                },
                ..pre
            },
        )
    }
}

/// Grants the creator the right to create funds, given what the creator's
/// delegation address derives to.
pub fn create_rbf_auth(ctx: &mut CreateRbfAuth, auth_pda: Option<(Pubkey, u8)>) -> (answer: Result<(), ErrorCode>)
    ensures
        committed(
            *old(ctx),
            *final(ctx),
            answer,
            spec_create_rbf_auth(*old(ctx), matching_bump(old(ctx).rbf_auth.key, derived_view(auth_pda))),
        ),
{
    if ctx.admin != ctx.global_config.admin {
        return Err(ErrorCode::Unauthorized);
    }
    let bump: u8 = match check_derived(&ctx.rbf_auth.key, &auth_pda) {
        Some(bump) => bump,
        None => {
            return Err(ErrorCode::ConstraintSeeds);
        },
    };
    if ctx.rbf_auth.data.is_some() {
        return Err(ErrorCode::AccountAlreadyInUse);
    }
    ctx.rbf_auth.data = Some(RbfAuth { creator: ctx.creator, bump });
    Ok(())
}

} // verus!
