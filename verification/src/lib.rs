//! Authorization and state-machine core of a tokenized fund engine: a registry
//! that hands out fund nonces, delegation records that carry creation rights,
//! funds with a write-once vault binding and a one-way status, and vaults whose
//! balances are conserved across every operation.

pub mod account;
pub mod codec;
pub mod error;
pub mod invariants;
pub mod pda;
pub mod pubkey;
pub mod rbf;
pub mod router;
pub mod vault;
