//! The property store: a write-once map from token identifiers to property
//! records.

use vstd::prelude::*;
use std::collections::HashMap;
use crate::types::{Error, Property};

verus! {

broadcast use vstd::std_specs::hash::group_hash_axioms;

/// Every record is stored under its own identifier.
pub open spec fn keyed_by_id(records: Map<u32, Property>) -> bool {
    forall|id: u32| #[trigger] records.contains_key(id) ==> records[id].id == id
}

/// The property records of a registry, each under the identifier of its
/// token. A record is written once and never changed or removed.
pub struct PropertyStore {
    records: HashMap<u32, Property>,
}

impl View for PropertyStore {
    type V = Map<u32, Property>;

    closed spec fn view(&self) -> Map<u32, Property> {
        self.records@
    }
}

impl PropertyStore {
    /// The store's invariant: every record is stored under its own
    /// identifier.
    #[verifier::type_invariant]
    pub open spec fn inv(self) -> bool {
        keyed_by_id(self@)
    }

    /// An empty store.
    pub fn new() -> (r: PropertyStore)
        ensures
            r@ == Map::<u32, Property>::empty(),
    {
        PropertyStore { records: HashMap::new() }
    }

    /// Whether a record is stored under `id`.
    pub fn has(&self, id: u32) -> (r: bool)
        ensures
            r == self@.contains_key(id),
    {
        self.records.contains_key(&id)
    }

    /// The record stored under `id`, if there is one.
    pub fn get(&self, id: u32) -> (r: Option<Property>)
        ensures
            r == (if self@.contains_key(id) {
                Some(self@[id])
            } else {
                None
            }),
            r matches Some(record) ==> record.id == id,
    {
        proof {
            use_type_invariant(self);
        }
        match self.records.get(&id) {
            Some(record) => Some(record.clone()),
            None => None,
        }
    }

    /// Stores `record` under its identifier, unless that slot is taken: a
    /// second write to one identifier fails with `StorageWriteFailed` and
    /// leaves the first record as it is.
    pub fn set(&mut self, record: Property) -> (r: Result<(), Error>)
        ensures
            match r {
                Ok(_) => !old(self)@.contains_key(record.id) && final(self)@ == old(self)@.insert(
                    record.id,
                    record,
                ),
                Err(e) => e == Error::StorageWriteFailed && old(self)@.contains_key(record.id)
                    && final(self)@ == old(self)@,
            },
    {
        proof {
            use_type_invariant(&*self);
        }
        if self.records.contains_key(&record.id) {
            return Err(Error::StorageWriteFailed);
        }
        // The map is taken out of the store while it is written to: the
        // store's invariant has to hold whenever the store itself is borrowed.
        let mut records = HashMap::new();
        std::mem::swap(&mut self.records, &mut records);
        records.insert(record.id, record);
        std::mem::swap(&mut self.records, &mut records);
        Ok(())
    }
}

} // verus!
