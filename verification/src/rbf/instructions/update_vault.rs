//! Binding a fund to its vault.

use vstd::prelude::*;
use crate::error::{committed, ErrorCode};
use crate::pubkey::Pubkey;
use crate::rbf::state::RBF;

verus! {

/// The records that binding a vault reads and writes.
#[derive(Clone, Copy, Debug, PartialEq, Eq)]
pub struct UpdateVault {
    pub rbf: RBF,
    /// The caller.
    pub authority: Pubkey,
}

/// What binding `new_vault` does: the fund changes as `RBF::spec_bind_vault`
/// says, on behalf of the caller.
pub open spec fn spec_update_vault(pre: UpdateVault, new_vault: Pubkey) -> Result<UpdateVault, ErrorCode> {
    match pre.rbf.spec_bind_vault(pre.authority, new_vault) {
        Ok(rbf) => Ok(UpdateVault { rbf, ..pre }),
        Err(code) => Err(code),
    }
}

/// Binds the fund to `new_vault`, once and for all.
pub fn update_vault(ctx: &mut UpdateVault, new_vault: Pubkey) -> (answer: Result<(), ErrorCode>)
    ensures
        committed(*old(ctx), *final(ctx), answer, spec_update_vault(*old(ctx), new_vault)),
{
    if ctx.rbf.vault.is_some() {
        return Err(ErrorCode::VaultAlreadySet);
    }
    if ctx.authority != ctx.rbf.manager {
        return Err(ErrorCode::Unauthorized);
    }
    ctx.rbf.vault = Some(new_vault);
    Ok(())
}

} // verus!
