//! Genesis construction for a hash-chained, event-sourced ledger: a freshly
//! generated root identity, and the first two chain entries that establish
//! the ledger's starting hash and fund the root account.

pub mod chain;
pub mod entry;
pub mod error;
pub mod event;
pub mod hashing;
pub mod keys;
pub mod mint;
pub mod transaction;
pub mod wire;

pub use chain::verify_slice;
pub use error::MintError;
pub use entry::{create_entry, Entry};
pub use event::Event;
pub use hashing::HashValue;
pub use keys::{KeyPair, PublicKey, Signature};
pub use mint::Mint;
pub use transaction::Transaction;
