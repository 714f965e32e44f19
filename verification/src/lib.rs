//! Canonical in-memory representation of on-chain account records and the
//! bidirectional conversion between that representation and its wire form.
//!
//! Two value types form the surface: [`BaseAccount`], the leaf entity holding
//! identity and sequencing state for one address, and [`ModuleAccount`], which
//! composes an optional [`BaseAccount`] with module metadata. A decoder lifts
//! an untrusted wire message into a validated domain value, failing with a
//! typed [`ParseError`] on malformed input, and an encoder performs the
//! inverse, total mapping.

pub mod auth;
pub mod error;
pub mod ident;
pub mod key;
pub mod laws;

pub use auth::{AccountNumber, BaseAccount, BaseAccountMsg, ModuleAccount, ModuleAccountMsg,
    SequenceNumber};
pub use error::ParseError;
pub use ident::AccountId;
pub use key::{AnyMsg, PublicKey};
