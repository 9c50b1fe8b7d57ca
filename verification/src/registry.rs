//! The registry itself: an admin, the property store, and the entry points
//! that callers use.
//!
//! The registry does not talk to the ownership ledger. Its caller asks the
//! ledger to mint and hands the ledger's reply to `mint_property`; at
//! initialization the caller gets back the collection metadata that it is to
//! set on the ledger.

use vstd::prelude::*;
use crate::model::RegistryState;
use crate::store::PropertyStore;
use crate::types::{DataKey, Error, LedgerReply, Metadata, Property};

verus! {

/// A registry of tokenized properties.
pub struct PropertyNFT {
    admin: Option<soroban_sdk::Address>,
    store: PropertyStore,
}

impl View for PropertyNFT {
    type V = RegistryState;

    closed spec fn view(&self) -> RegistryState {
        RegistryState { admin: self.admin, records: self.store@ }
    }
}

impl PropertyNFT {
    /// A fresh registry: no admin, no record.
    pub fn new() -> (r: PropertyNFT)
        ensures
            r@ == RegistryState::empty(),
            r@.wf(),
    {
        PropertyNFT { admin: None, store: PropertyStore::new() }
    }

    /// Records `admin` as the registry's admin and returns the collection
    /// metadata that the caller is to set on the ownership ledger.
    ///
    /// Only the first call succeeds. A later call fails with
    /// `AlreadyInitialized` and leaves the recorded admin as it is.
    pub fn initialize(&mut self, admin: soroban_sdk::Address) -> (r: Result<Metadata, Error>)
        ensures
            r == old(self)@.initialize_outcome(),
            final(self)@ == old(self)@.initialized(admin),
            final(self)@.wf(),
    {
        proof {
            use_type_invariant(&self.store);
        }
        if self.admin.is_some() {
            return Err(Error::AlreadyInitialized);
        }
        self.admin = Some(admin);
        Ok(Metadata { base_uri: "www.mytoken.com", name: "My Property", symbol: "PROP" })
    }

    /// Stores the property record of a token that the ownership ledger was
    /// asked to mint for `to`, and returns the token's identifier.
    ///
    /// `reply` is what the ledger answered. If it refused, the mint fails
    /// with `Unauthorized`. If it issued an identifier whose slot already
    /// holds a record, the mint fails with `StorageWriteFailed`: a record is
    /// never overwritten. Otherwise the record is stored under the issued
    /// identifier, with `to` as its owner. A failed mint changes nothing.
    pub fn mint_property(
        &mut self,
        reply: LedgerReply,
        to: soroban_sdk::Address,
        location: soroban_sdk::String,
        price: u32,
        document: soroban_sdk::String,
    ) -> (r: Result<u32, Error>)
        ensures
            r == old(self)@.mint_outcome(reply),
            final(self)@ == old(self)@.minted(reply, to, location, price, document),
            final(self)@.wf(),
    {
        proof {
            use_type_invariant(&self.store);
        }
        match reply {
            LedgerReply::Denied => Err(Error::Unauthorized),
            LedgerReply::Issued(id) => {
                let property = Property { id, owner: to, location, price, document };
                match self.store.set(property) {
                    Ok(_) => Ok(id),
                    Err(e) => Err(e),
                }
            },
        }
    }

    /// The record stored under `token_id`, as it was written at mint time,
    /// or `NotFound` if there is none.
    pub fn get_property(&self, token_id: u32) -> (r: Result<Property, Error>)
        ensures
            r == self@.lookup(token_id),
            r matches Ok(p) ==> p.id == token_id,
    {
        match self.store.get(token_id) {
            Some(property) => Ok(property),
            None => Err(Error::NotFound),
        }
    }

    /// Whether the slot `key` holds a value: the admin for `Owner`, a record
    /// for `Property(id)`. The supply counter is the ledger's, so
    /// `TotalSupply` is never held here.
    pub fn has(&self, key: DataKey) -> (r: bool)
        ensures
            r == self@.has(key),
    {
        match key {
            DataKey::Owner => self.admin.is_some(),
            DataKey::Property(id) => self.store.has(id),
            DataKey::TotalSupply => false,
        }
    }

    /// The admin recorded at initialization, if any.
    pub fn admin(&self) -> (r: Option<soroban_sdk::Address>)
        ensures
            r == self@.admin,
    {
        match &self.admin {
            Some(a) => Some(a.clone()),
            None => None,
        }
    }
}

} // verus!
