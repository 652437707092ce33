//! A verified, identity-gated message ledger.
//!
//! One party delivers an addressed message to another, either party may read
//! it back, and the receiver may mark it read. The ledger owns a counter that
//! mints message identifiers and a store of message records; every rule on
//! who may do what is stated as a contract and proved.

pub mod contract;
pub mod counter;
pub mod error;
pub mod identity;
pub mod laws;
pub mod ledger;
pub mod message;
pub mod store;

pub use contract::MessagingContract;
pub use counter::Counter;
pub use error::MessagingError;
pub use identity::{Address, IdentityVerifier};
pub use message::{Message, MessageBook};
pub use store::MessageStore;
