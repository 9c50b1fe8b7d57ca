//! A registry of tokenized properties.
//!
//! Each token stands for a real-world property. When a token is minted, the
//! registry binds a record to it: the token's identifier, the address that
//! received it, a location, a price and a reference to a document. The record
//! is written once and can be read back by the identifier for as long as the
//! registry lives.
//!
//! Who owns a token, and which identifier the next token gets, is the business
//! of an ownership ledger outside this crate. The registry only takes the
//! ledger's reply to a mint request and decides what to store.
//!
//! - [`types`]: the values that pass between a caller and the registry.
//! - [`store`]: the write-once map from identifiers to records.
//! - [`registry`]: the registry and its entry points.
//! - [`model`]: the registry as a mathematical value, to which the entry
//!   points are held.
//! - [`laws`]: what is proved of every registry.
//! - [`sdk`]: what is assumed of the Soroban SDK's address and string types.

pub mod laws;
pub mod model;
pub mod registry;
pub mod sdk;
pub mod store;
pub mod types;
