//! A metered, permissioned registry of content.
//!
//! Accounts hold a balance. Content, named by its hash, is added, read and
//! written; each of these is paid for by the caller, at a price that grows
//! with the number of earlier accesses to the content. The owner of a
//! piece of content may read and write it, other accounts as far as they
//! were granted the permission.
//!
//! - [`id`]: the identities of accounts and of content.
//! - [`table`]: the association table that the stores are kept in.
//! - [`ledger`]: the balances.
//! - [`permission`]: the permission table of one content record.
//! - [`registry`]: the content records.
//! - [`charging`]: the price of an operation.
//! - [`event`]: events and reasons of refusal.
//! - [`model`]: the state as a whole and what each operation makes of it.
//! - [`contract`]: the operations.
//! - [`laws`]: what holds of the operations in every state.

pub mod charging;
pub mod contract;
pub mod event;
pub mod id;
pub mod laws;
pub mod ledger;
pub mod model;
pub mod permission;
pub mod registry;
pub mod table;

pub use charging::TxOp;
pub use contract::IpfsKs;
pub use event::FileEvent;
pub use event::OpError;
pub use id::AccountId;
pub use id::ContentHash;
pub use permission::PermissionKind;
