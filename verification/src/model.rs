//! The registry as a mathematical value, and what each call does to it.
//!
//! A registry is an optional admin and a map from token identifiers to
//! property records. The functions here say, for every state and every input,
//! what a call returns and what state it leaves. The executable registry is
//! held to them, and the laws of the registry are proved from them.

use vstd::prelude::*;
use crate::store::keyed_by_id;
use crate::types::{DataKey, Error, LedgerReply, Metadata, Property};

verus! {

/// The state of one registry.
pub struct RegistryState {
    /// The admin, once the registry has been initialized.
    pub admin: Option<soroban_sdk::Address>,
    /// The property record stored under each token identifier.
    pub records: Map<u32, Property>,
}

/// A call that can change a registry.
pub enum Call {
    Initialize { admin: soroban_sdk::Address },
    Mint {
        reply: LedgerReply,
        to: soroban_sdk::Address,
        location: soroban_sdk::String,
        price: u32,
        document: soroban_sdk::String,
    },
}

/// The descriptive metadata of the token collection: its reference URI, its
/// display name and its symbol.
pub open spec fn collection_metadata() -> Metadata {
    Metadata { base_uri: "www.mytoken.com", name: "My Property", symbol: "PROP" }
}

impl Call {
    /// The identifier that the ledger issued for this call, if the call is a
    /// mint and the ledger did not refuse.
    pub open spec fn ledger_id(self) -> Option<u32> {
        match self {
            Call::Mint { reply: LedgerReply::Issued(id), .. } => Some(id),
            _ => None,
        }
    }
}

impl RegistryState {
    /// A fresh registry: no admin, no record.
    pub open spec fn empty() -> RegistryState {
        RegistryState { admin: None, records: Map::empty() }
    }

    /// Every record is stored under its own identifier.
    pub open spec fn wf(self) -> bool {
        keyed_by_id(self.records)
    }

    /// Whether a slot of the layout holds a value.
    pub open spec fn has(self, key: DataKey) -> bool {
        match key {
            DataKey::Owner => self.admin is Some,
            DataKey::Property(id) => self.records.contains_key(id),
            DataKey::TotalSupply => false,
        }
    }

    /// What a query for `id` returns.
    pub open spec fn lookup(self, id: u32) -> Result<Property, Error> {
        if self.records.contains_key(id) {
            Ok(self.records[id])
        } else {
            Err(Error::NotFound)
        }
    }

    /// What a call to initialize returns: the collection metadata the first
    /// time, `AlreadyInitialized` after that.
    pub open spec fn initialize_outcome(self) -> Result<Metadata, Error> {
        if self.admin is None {
            Ok(collection_metadata())
        } else {
            Err(Error::AlreadyInitialized)
        }
    }

    /// The state after a call to initialize with `admin`: the first call
    /// records the admin, any later one changes nothing.
    pub open spec fn initialized(self, admin: soroban_sdk::Address) -> RegistryState {
        if self.admin is None {
            RegistryState { admin: Some(admin), records: self.records }
        } else {
            self
        }
    }

    /// What a mint returns when the ledger answered `reply`: the issued
    /// identifier, unless the ledger refused or the identifier's slot is
    /// already taken.
    pub open spec fn mint_outcome(self, reply: LedgerReply) -> Result<u32, Error> {
        match reply {
            LedgerReply::Denied => Err(Error::Unauthorized),
            LedgerReply::Issued(id) => if self.records.contains_key(id) {
                Err(Error::StorageWriteFailed)
            } else {
                Ok(id)
            },
        }
    }

    /// The state after a mint: a successful one adds the record under the
    /// issued identifier, a failed one changes nothing.
    pub open spec fn minted(
        self,
        reply: LedgerReply,
        to: soroban_sdk::Address,
        location: soroban_sdk::String,
        price: u32,
        document: soroban_sdk::String,
    ) -> RegistryState {
        match self.mint_outcome(reply) {
            Ok(id) => RegistryState {
                admin: self.admin,
                records: self.records.insert(
                    id,
                    Property { id, owner: to, location, price, document },
                ),
            },
            Err(_) => self,
        }
    }

    /// The state after one call.
    pub open spec fn step(self, call: Call) -> RegistryState {
        match call {
            Call::Initialize { admin } => self.initialized(admin),
            Call::Mint { reply, to, location, price, document } => self.minted(
                reply,
                to,
                location,
                price,
                document,
            ),
        }
    }

    /// The identifier that a call returns, if the call is a mint that
    /// succeeds in this state.
    pub open spec fn issues(self, call: Call) -> Option<u32> {
        match call {
            Call::Initialize { .. } => None,
            Call::Mint { reply, .. } => match self.mint_outcome(reply) {
                Ok(id) => Some(id),
                Err(_) => None,
            },
        }
    }

    /// The state in which the call at position `i` of `calls` is made, when
    /// the calls are made in order from this state.
    pub open spec fn before(self, calls: Seq<Call>, i: int) -> RegistryState {
        self.run(calls.take(i))
    }

    /// The state after a sequence of calls, made in order.
    pub open spec fn run(self, calls: Seq<Call>) -> RegistryState
        decreases calls.len(),
    {
        if calls.len() == 0 {
            self
        } else {
            self.run(calls.drop_last()).step(calls.last())
        }
    }
}

} // verus!
