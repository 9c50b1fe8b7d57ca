//! The values that pass between a caller and the registry.

use vstd::prelude::*;

verus! {

/// The ways in which a registry operation can fail.
#[derive(Clone, Copy, Debug, PartialEq, Eq, Structural)]
pub enum Error {
    /// The registry already has an admin.
    AlreadyInitialized,
    /// The ownership ledger refused to mint for the caller.
    Unauthorized,
    /// No record is stored under the identifier.
    NotFound,
    /// The record could not be written: its slot is already taken.
    StorageWriteFailed,
}

/// The logical slots of the registry's persistent layout.
#[derive(Clone, Copy, Debug, PartialEq, Eq, Structural)]
pub enum DataKey {
    /// The admin identity, written once at initialization.
    Owner,
    /// The property record of one token.
    Property(u32),
    /// The number of minted tokens. The ownership ledger keeps this counter;
    /// the registry never writes it.
    TotalSupply,
}

/// What the ownership ledger answered when it was asked to mint a token.
#[derive(Clone, Copy, Debug, PartialEq, Eq, Structural)]
pub enum LedgerReply {
    /// The ledger created a token under this identifier and assigned it to
    /// the recipient.
    Issued(u32),
    /// The ledger refused: the caller is not authorized to mint for the
    /// recipient.
    Denied,
}

/// The descriptive metadata of a token collection, as the ownership ledger
/// takes it.
#[derive(Clone, Copy, Debug)]
pub struct Metadata {
    pub base_uri: &'static str,
    pub name: &'static str,
    pub symbol: &'static str,
}

/// A property bound to a token at mint time.
///
/// `owner` is the address that received the mint. It is a snapshot: a later
/// transfer on the ownership ledger does not change it.
#[derive(Debug)]
pub struct Property {
    pub id: u32,
    pub owner: soroban_sdk::Address,
    pub location: soroban_sdk::String,
    pub price: u32,
    pub document: soroban_sdk::String,
}

impl Clone for Property {
    /// A copy of the record, field for field.
    fn clone(&self) -> (r: Property)
        ensures
            r == *self,
    {
        Property {
            id: self.id,
            owner: self.owner.clone(),
            location: self.location.clone(),
            price: self.price,
            document: self.document.clone(),
        }
    }
}

} // verus!
