//! # Ancore Account
//!
//! The verified core of a smart account for Stellar/Soroban: an owner, replay protection by a
//! nonce, and session keys that may act for the owner within their permissions until they expire.
//!
//! - [`account`]: the operations, as a contract offers them.
//! - [`policy`]: the rules that they apply, on plain values.
//! - [`model`]: what the operations answer and leave in the ledger, as mathematical functions.
//! - [`laws`]: what follows for the account as a whole.
//! - [`ledger`]: what a running contract call sees of the ledger.
//! - [`types`], [`error`], [`events`]: the values that the operations take, answer and publish.
//!
//! ## Events
//! Every operation that changes the ledger publishes one event:
//! - `initialized`: when the account is initialized, with the owner address
//! - `executed`: when a transaction is executed, with to, function, and nonce
//! - `session_key_added`: when a session key is added, with public_key and expires_at
//! - `session_key_revoked`: when a session key is revoked, with public_key

pub mod account;
pub mod error;
pub mod events;
mod host;
pub mod laws;
pub mod ledger;
pub mod model;
pub mod policy;
pub mod types;

pub use account::AncoreAccount;
pub use error::ContractError;
pub use types::{Address, DataKey, SessionKey, Symbol};
