//! Issuing a non-fungible token: one ledger record without decimals and with a
//! supply of at most one, the owner's ownership-index record, the metadata
//! record and the edition record, created in two steps on a ledger.

pub mod address;
pub mod calls;
pub mod constants;
pub mod create;
pub mod derivation;
pub mod error;
pub mod instruction;
pub mod upkeep;
pub mod laws;
pub mod ledger;
pub mod metadata;
pub mod mint;
pub mod model;
pub mod records;
pub mod table;

pub use create::{create_token, CreateToken};
pub use mint::{mint_token, MintToken};
