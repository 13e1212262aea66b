//! The fund program: the registry, the delegation ledger and the fund
//! lifecycle. Each entry here derives the addresses that its operation needs
//! and hands them to the operation in `instructions`.

pub mod instructions;
pub mod layout;
pub mod state;

pub use crate::rbf::instructions::create_rbf::{CreateRbf, FundSetup, RbfInitParams};
pub use crate::rbf::instructions::create_rbf_auth::CreateRbfAuth;
pub use crate::rbf::instructions::create_rbf_revoke::CreateRbfRevoke;
pub use crate::rbf::instructions::initialize::Initialize;
pub use crate::rbf::instructions::open_redemption::OpenRedemption;
pub use crate::rbf::instructions::update_vault::UpdateVault;
pub use crate::rbf::state::{GlobalConfig, RBFStatus, RbfAuth, RBF};

use vstd::prelude::*;
use crate::account::Refund;
use crate::error::{committed, committed_with, ErrorCode};
use crate::pda::{
    find_global_config_address, find_rbf_address, find_rbf_auth_address, global_config_seeds,
    matching_bump, program_address, rbf_auth_seeds, rbf_seeds,
};
use crate::pubkey::Pubkey;
use crate::rbf::instructions::create_rbf::spec_create_rbf;
use crate::rbf::instructions::create_rbf_auth::spec_create_rbf_auth;
use crate::rbf::instructions::create_rbf_revoke::spec_revoke_rbf_auth;
use crate::rbf::instructions::initialize::spec_initialize;
use crate::rbf::instructions::open_redemption::spec_open_redemption;
use crate::rbf::instructions::update_vault::spec_update_vault;

verus! {

/// The bump seed of the registry's address under `program_id`, where `key` is
/// that address.
pub open spec fn global_config_bump(key: Pubkey, program_id: Pubkey) -> Option<u8> {
    matching_bump(key, program_address(global_config_seeds(), program_id@))
}

/// The bump seed of `creator`'s delegation address under `program_id`, where
/// `key` is that address.
pub open spec fn rbf_auth_bump(key: Pubkey, creator: Pubkey, program_id: Pubkey) -> Option<u8> {
    matching_bump(key, program_address(rbf_auth_seeds(creator), program_id@))
}

/// The bump seed of the address of the fund that the creator would make now,
/// under the registry's current nonce, where the supplied place is that address.
pub open spec fn next_rbf_bump(pre: CreateRbf) -> Option<u8> {
    match pre.global_config.data {
        Some(config) => matching_bump(
            pre.rbf.key,
            program_address(rbf_seeds(pre.creator, config.rbf_nonce), pre.program_id@),
        ),
        None => None,
    }
}

/// Creates the registry at its derived address, with the caller as
/// administrator and the nonce at 0.
pub fn initialize(ctx: &mut Initialize) -> (answer: Result<(), ErrorCode>)
    ensures
        committed(
            *old(ctx),
            *final(ctx),
            answer,
            spec_initialize(*old(ctx), global_config_bump(old(ctx).global_config.key, old(ctx).program_id)),
        ),
{
    let config_pda = find_global_config_address(&ctx.program_id);
    instructions::initialize::initialize(ctx, config_pda)
}

/// Stores a delegation record for the creator at the creator's derived
/// delegation address.
pub fn create_rbf_auth(ctx: &mut CreateRbfAuth) -> (answer: Result<(), ErrorCode>)
    ensures
        committed(
            *old(ctx),
            *final(ctx),
            answer,
            spec_create_rbf_auth(
                *old(ctx),
                rbf_auth_bump(old(ctx).rbf_auth.key, old(ctx).creator, old(ctx).program_id),
            ),
        ),
{
    let auth_pda = find_rbf_auth_address(&ctx.creator, &ctx.program_id);
    instructions::create_rbf_auth::create_rbf_auth(ctx, auth_pda)
}

/// Deletes the creator's delegation record and says what is owed to the
/// administrator.
pub fn create_rbf_revoke(ctx: &mut CreateRbfRevoke) -> (answer: Result<Refund, ErrorCode>)
    ensures
        committed_with(
            *old(ctx),
            *final(ctx),
            answer,
            spec_revoke_rbf_auth(
                *old(ctx),
                rbf_auth_bump(old(ctx).rbf_auth.key, old(ctx).creator, old(ctx).program_id),
            ),
        ),
{
    let auth_pda = find_rbf_auth_address(&ctx.creator, &ctx.program_id);
    instructions::create_rbf_revoke::revoke_rbf_auth(ctx, auth_pda)
}

/// Creates a fund at the address derived from the creator and the registry's
/// current nonce, moves the nonce on, and says what the token program is to
/// set up for the fund.
pub fn create_rbf(ctx: &mut CreateRbf, params: RbfInitParams) -> (answer: Result<FundSetup, ErrorCode>)
    ensures
        committed_with(
            *old(ctx),
            *final(ctx),
            answer,
            spec_create_rbf(
                *old(ctx),
                params,
                global_config_bump(old(ctx).global_config.key, old(ctx).program_id),
                rbf_auth_bump(old(ctx).rbf_auth.key, old(ctx).creator, old(ctx).program_id),
                next_rbf_bump(*old(ctx)),
            ),
        ),
{
    let config_pda = find_global_config_address(&ctx.program_id);
    let auth_pda = find_rbf_auth_address(&ctx.creator, &ctx.program_id);
    let rbf_pda = match ctx.global_config.data {
        Some(config) => find_rbf_address(&ctx.creator, config.rbf_nonce, &ctx.program_id),
        None => None,
    };
    instructions::create_rbf::create_rbf(ctx, params, config_pda, auth_pda, rbf_pda)
}

/// Binds the fund to `new_vault`, once and for all.
pub fn update_vault(ctx: &mut UpdateVault, new_vault: Pubkey) -> (answer: Result<(), ErrorCode>)
    ensures
        committed(*old(ctx), *final(ctx), answer, spec_update_vault(*old(ctx), new_vault)),
{
    instructions::update_vault::update_vault(ctx, new_vault)
}

/// Moves the fund to liquidating. There is no way back.
pub fn open_redemption(ctx: &mut OpenRedemption) -> (answer: Result<(), ErrorCode>)
    ensures
        committed(*old(ctx), *final(ctx), answer, spec_open_redemption(*old(ctx))),
{
    instructions::open_redemption::open_redemption(ctx)
}

} // verus!
