//! Accounts as an operation sees them: an address, a balance, and what is stored there.

use vstd::prelude::*;
use crate::pubkey::Pubkey;

verus! {

/// The place at `key` where a record of type `T` is or may be stored. `data` is
/// `None` while no record exists there.
#[derive(Clone, Copy, Debug, PartialEq, Eq)]
pub struct Account<T> {
    pub key: Pubkey,
    pub lamports: u64,
    pub data: Option<T>,
}

/// An account that an operation refers to without reading what it stores.
#[derive(Clone, Copy, Debug, PartialEq, Eq)]
pub struct AccountInfo {
    pub key: Pubkey,
    pub lamports: u64,
    pub data_len: u64,
}

/// A token custody account: the raw account and the mint whose tokens it holds.
#[derive(Clone, Copy, Debug, PartialEq, Eq)]
pub struct TokenAccount {
    pub info: AccountInfo,
    pub mint: Pubkey,
}

/// Storage balance to pay back when a record is closed.
#[derive(Clone, Copy, Debug, PartialEq, Eq)]
pub struct Refund {
    pub recipient: Pubkey,
    pub lamports: u64,
}

impl AccountInfo {
    /// An account is live when it stores something and is funded.
    pub open spec fn spec_is_live(&self) -> bool {
        self.data_len > 0 && self.lamports > 0
    }

    /// Whether the account stores something and is funded.
    #[verifier::when_used_as_spec(spec_is_live)]
    pub fn is_live(&self) -> (live: bool)
        ensures
            live == self.spec_is_live(),
    {
        self.data_len > 0 && self.lamports > 0
    }
}

} // verus!
