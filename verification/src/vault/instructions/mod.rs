//! The operations of the vault program that store or delete a record at a
//! derived address. Each is given what the derivation yields and holds the
//! supplied address against it.

pub mod create_vault;
pub mod create_vault_auth;
pub mod create_vault_revoke;
