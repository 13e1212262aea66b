//! Moving a fund from running to liquidating.

use vstd::prelude::*;
use crate::error::{committed, ErrorCode};
use crate::pubkey::Pubkey;
use crate::rbf::state::{RBFStatus, RBF};

verus! {

/// The records that opening redemption reads and writes.
#[derive(Clone, Copy, Debug, PartialEq, Eq)]
pub struct OpenRedemption {
    pub rbf: RBF,
    /// The caller.
    pub authority: Pubkey,
}

/// What opening redemption does: the fund changes as
/// `RBF::spec_open_redemption` says, on behalf of the caller.
pub open spec fn spec_open_redemption(pre: OpenRedemption) -> Result<OpenRedemption, ErrorCode> {
    match pre.rbf.spec_open_redemption(pre.authority) {
        Ok(rbf) => Ok(OpenRedemption { rbf, ..pre }),
        Err(code) => Err(code),
    }
}

/// Moves the fund to liquidating. There is no way back.
pub fn open_redemption(ctx: &mut OpenRedemption) -> (answer: Result<(), ErrorCode>)
    ensures
        committed(*old(ctx), *final(ctx), answer, spec_open_redemption(*old(ctx))),
{
    match ctx.rbf.status {
        RBFStatus::Running => {},
        RBFStatus::Liquidating => {
            return Err(ErrorCode::InvalidRBFStatus);
        },
    }
    if ctx.authority != ctx.rbf.drds {
        return Err(ErrorCode::Unauthorized);
    }
    ctx.rbf.status = RBFStatus::Liquidating;
    Ok(())
}

} // verus!
