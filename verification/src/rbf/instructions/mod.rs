//! The operations of the fund program, each on the records that it declares.
//! Where a record's address is derived, the operation is given what the
//! derivation yields and holds the supplied address against it.

pub mod create_rbf;
pub mod create_rbf_auth;
pub mod create_rbf_revoke;
pub mod initialize;
pub mod open_redemption;
pub mod update_vault;
