//! Creating the registry.

use vstd::prelude::*;
use crate::account::Account;
use crate::error::{committed, ErrorCode};
use crate::pda::{check_derived, derived_view, matching_bump};
use crate::pubkey::Pubkey;
use crate::rbf::state::GlobalConfig;

verus! {

/// The records that creating the registry reads and writes.
#[derive(Clone, Copy, Debug, PartialEq, Eq)]
pub struct Initialize {
    /// The program under which addresses are derived.
    pub program_id: Pubkey,
    /// The place of the registry to be.
    pub global_config: Account<GlobalConfig>,
    /// The caller, who becomes the administrator.
    pub user: Pubkey,
}

/// What creating the registry does, `bump` being the bump seed of the
/// registry's address, or `None` where the supplied address is not that
/// address. The place must be the registry's address and must be free; the
/// registry then starts with the caller as administrator and the nonce at 0.
pub open spec fn spec_initialize(pre: Initialize, bump: Option<u8>) -> Result<Initialize, ErrorCode> {
    if bump is None {
        Err(ErrorCode::ConstraintSeeds)
    } else if pre.global_config.data is Some {
        Err(ErrorCode::AccountAlreadyInUse)
    } else {
        Ok(
            Initialize {
                global_config: Account {
                    data: Some(GlobalConfig { admin: pre.user, rbf_nonce: 0, bump: bump->Some_0 }),
                    ..pre.global_config
                },
                ..pre
            },
        )
    }
}

/// Creates the registry, given what the registry's address derives to.
pub fn initialize(ctx: &mut Initialize, config_pda: Option<(Pubkey, u8)>) -> (answer: Result<(), ErrorCode>)
    ensures
        committed(
            *old(ctx),
            *final(ctx),
            answer,
            spec_initialize(*old(ctx), matching_bump(old(ctx).global_config.key, derived_view(config_pda))),
        ),
{
    let bump: u8 = match check_derived(&ctx.global_config.key, &config_pda) {
        Some(bump) => bump,
        None => {
            return Err(ErrorCode::ConstraintSeeds);
        },
    };
    if ctx.global_config.data.is_some() {
        return Err(ErrorCode::AccountAlreadyInUse);
    }
    ctx.global_config.data = Some(GlobalConfig { admin: ctx.user, rbf_nonce: 0, bump });
    Ok(())
}

} // verus!
