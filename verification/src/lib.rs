//! Issuance and custody of one-of-a-kind assets: the derivation of key-less
//! authorities, the validation of every account that an operation is handed,
//! and the three operations themselves over an in-memory ledger.

pub mod accounts;
pub mod address;
pub mod capability;
pub mod derivation;
pub mod effects;
pub mod error;
pub mod handlers;
pub mod laws;
pub mod ledger;
pub mod lookups;
pub mod model;
pub mod operations;
pub mod outcomes;
pub mod records;
pub mod validator;
