//! What holds of every registry, proved from the model.
//!
//! Where a law speaks of a sequence of calls, the calls are made in order on
//! one registry, and each is judged in the state that the calls before it
//! left.

use vstd::prelude::*;
use crate::model::{Call, RegistryState};
use crate::types::{Error, LedgerReply, Metadata, Property};

verus! {

/// A mint succeeds exactly when the ledger issued an identifier whose slot is
/// free. It then returns that identifier, and a query for it returns the
/// record that was minted: the identifier, the recipient as owner, and the
/// location, price and document that were given.
pub proof fn lemma_mint_then_get(
    s: RegistryState,
    reply: LedgerReply,
    to: soroban_sdk::Address,
    location: soroban_sdk::String,
    price: u32,
    document: soroban_sdk::String,
)
    ensures
        s.mint_outcome(reply) is Ok <==> (reply matches LedgerReply::Issued(id)
            && !s.records.contains_key(id)),
        s.mint_outcome(reply) matches Ok(id) ==> reply == LedgerReply::Issued(id) && s.minted(
            reply,
            to,
            location,
            price,
            document,
        ).lookup(id) == Ok::<Property, Error>(Property { id, owner: to, location, price, document }),
{
}

/// A mint that the ledger refused fails with `Unauthorized` and leaves the
/// registry as it was: no record is added.
pub proof fn lemma_denied_mint_changes_nothing(
    s: RegistryState,
    to: soroban_sdk::Address,
    location: soroban_sdk::String,
    price: u32,
    document: soroban_sdk::String,
)
    ensures
        s.mint_outcome(LedgerReply::Denied) == Err::<u32, Error>(Error::Unauthorized),
        s.minted(LedgerReply::Denied, to, location, price, document) == s,
{
}

/// A mint that fails, for whatever reason, leaves the registry as it was.
pub proof fn lemma_failed_mint_changes_nothing(
    s: RegistryState,
    reply: LedgerReply,
    to: soroban_sdk::Address,
    location: soroban_sdk::String,
    price: u32,
    document: soroban_sdk::String,
)
    requires
        s.mint_outcome(reply) is Err,
    ensures
        s.minted(reply, to, location, price, document) == s,
{
}

/// Whatever the first call to initialize did, a second one fails with
/// `AlreadyInitialized` and leaves the registry, and with it the recorded
/// admin, unchanged. On a fresh registry the recorded admin is the first
/// call's.
pub proof fn lemma_second_initialize_rejected(
    s: RegistryState,
    first: soroban_sdk::Address,
    second: soroban_sdk::Address,
)
    ensures
        s.initialized(first).initialize_outcome() == Err::<Metadata, Error>(
            Error::AlreadyInitialized,
        ),
        s.initialized(first).initialized(second) == s.initialized(first),
        s.admin is None ==> s.initialized(first).initialized(second).admin == Some(first),
{
}

/// Once an admin is recorded, no sequence of calls changes it.
pub proof fn lemma_admin_is_kept(s: RegistryState, calls: Seq<Call>)
    requires
        s.admin is Some,
    ensures
        s.run(calls).admin == s.admin,
    decreases calls.len(),
{
    if calls.len() > 0 {
        lemma_admin_is_kept(s, calls.drop_last());
    }
}

/// Every record is stored under its own identifier, and no sequence of calls
/// changes that.
pub proof fn lemma_records_stay_keyed_by_id(s: RegistryState, calls: Seq<Call>)
    requires
        s.wf(),
    ensures
        s.run(calls).wf(),
    decreases calls.len(),
{
    if calls.len() > 0 {
        lemma_records_stay_keyed_by_id(s, calls.drop_last());
    }
}

/// A stored record is immutable: after any sequence of calls, a query for
/// its identifier still returns it as it was.
pub proof fn lemma_record_is_kept(s: RegistryState, calls: Seq<Call>, id: u32)
    requires
        s.records.contains_key(id),
    ensures
        s.run(calls).lookup(id) == s.lookup(id),
    decreases calls.len(),
{
    if calls.len() > 0 {
        lemma_record_is_kept(s, calls.drop_last(), id);
    }
}

/// A minted record stays retrievable with the values it was minted with,
/// whatever calls follow the mint.
pub proof fn lemma_minted_record_is_kept(
    s: RegistryState,
    reply: LedgerReply,
    to: soroban_sdk::Address,
    location: soroban_sdk::String,
    price: u32,
    document: soroban_sdk::String,
    later: Seq<Call>,
)
    ensures
        s.mint_outcome(reply) matches Ok(id) ==> s.minted(
            reply,
            to,
            location,
            price,
            document,
        ).run(later).lookup(id) == Ok::<Property, Error>(
            Property { id, owner: to, location, price, document },
        ),
{
    if let Ok(id) = s.mint_outcome(reply) {
        lemma_record_is_kept(s.minted(reply, to, location, price, document), later, id);
    }
}

/// Running two sequences of calls one after the other is running their
/// concatenation.
pub proof fn lemma_run_concat(s: RegistryState, first: Seq<Call>, then: Seq<Call>)
    ensures
        s.run(first + then) == s.run(first).run(then),
    decreases then.len(),
{
    if then.len() == 0 {
        assert(first + then =~= first);
    } else {
        lemma_run_concat(s, first, then.drop_last());
        assert((first + then).drop_last() =~= first + then.drop_last());
        assert((first + then).last() == then.last());
    }
}

/// No two successful mints on one registry return the same identifier.
pub proof fn lemma_minted_ids_are_unique(s: RegistryState, calls: Seq<Call>, i: int, j: int)
    requires
        0 <= i < j < calls.len(),
    ensures
        s.before(calls, i).issues(calls[i]) matches Some(a) ==> s.before(calls, j).issues(
            calls[j],
        ) != Some(a),
{
    let before_i = s.before(calls, i);
    if let Some(a) = before_i.issues(calls[i]) {
        let after_i = before_i.step(calls[i]);
        let between = calls.subrange(i + 1, j);
        assert(calls.take(i + 1).drop_last() =~= calls.take(i));
        assert(after_i == s.run(calls.take(i + 1)));
        assert(calls.take(i + 1) + between =~= calls.take(j));
        lemma_run_concat(s, calls.take(i + 1), between);
        assert(after_i.records.contains_key(a));
        lemma_record_is_kept(after_i, between, a);
    }
}

/// A successful mint returns the identifier that the ledger issued for it.
pub proof fn lemma_mint_returns_ledger_id(s: RegistryState, call: Call)
    ensures
        s.issues(call) matches Some(id) ==> call.ledger_id() == Some(id),
{
}

/// Identifiers are strictly increasing across the successful mints on one
/// registry, given a ledger that counts upwards: where the ledger's
/// identifier for an earlier call is below its identifier for a later one,
/// and both mints succeed, the earlier mint returns the smaller identifier.
pub proof fn lemma_minted_ids_ascend(s: RegistryState, calls: Seq<Call>, i: int, j: int)
    requires
        0 <= i < j < calls.len(),
        calls[i].ledger_id() matches Some(a) ==> (calls[j].ledger_id() matches Some(b) ==> a < b),
    ensures
        s.before(calls, i).issues(calls[i]) matches Some(a) ==> (s.before(calls, j).issues(
            calls[j],
        ) matches Some(b) ==> a < b),
{
}

/// A query for an identifier that no successful mint has returned fails with
/// `NotFound`: if none of the calls made on a fresh registry returned `id`,
/// the registry holds no record under it.
pub proof fn lemma_unminted_is_not_found(calls: Seq<Call>, id: u32)
    requires
        forall|i: int|
            0 <= i < calls.len() ==> #[trigger] RegistryState::empty().before(calls, i).issues(
                calls[i],
            ) != Some(id),
    ensures
        RegistryState::empty().run(calls).lookup(id) == Err::<Property, Error>(Error::NotFound),
    decreases calls.len(),
{
    if calls.len() > 0 {
        let fresh = RegistryState::empty();
        let front = calls.drop_last();
        assert forall|i: int| 0 <= i < front.len() implies #[trigger] fresh.before(
            front,
            i,
        ).issues(front[i]) != Some(id) by {
            assert(front.take(i) =~= calls.take(i));
            assert(fresh.before(calls, i).issues(calls[i]) != Some(id));
        }
        lemma_unminted_is_not_found(front, id);
        let last = calls.len() - 1;
        assert(calls.take(last) =~= front);
        assert(fresh.before(calls, last).issues(calls[last]) != Some(id));
    }
}

/// A record is held exactly when a successful mint returned its identifier:
/// after any calls on a fresh registry, a query for `id` succeeds if and
/// only if one of the calls returned `id`.
pub proof fn lemma_found_iff_minted(calls: Seq<Call>, id: u32)
    ensures
        RegistryState::empty().run(calls).lookup(id) is Ok <==> exists|i: int|
            0 <= i < calls.len() && #[trigger] RegistryState::empty().before(calls, i).issues(
                calls[i],
            ) == Some(id),
{
    let fresh = RegistryState::empty();
    if exists|i: int|
        0 <= i < calls.len() && #[trigger] fresh.before(calls, i).issues(calls[i]) == Some(id) {
        let i = choose|i: int|
            0 <= i < calls.len() && #[trigger] fresh.before(calls, i).issues(calls[i]) == Some(id);
        let after_i = fresh.before(calls, i).step(calls[i]);
        let rest = calls.subrange(i + 1, calls.len() as int);
        assert(calls.take(i + 1).drop_last() =~= calls.take(i));
        assert(after_i == fresh.run(calls.take(i + 1)));
        assert(calls.take(i + 1) + rest =~= calls);
        lemma_run_concat(fresh, calls.take(i + 1), rest);
        lemma_record_is_kept(after_i, rest, id);
    } else {
        lemma_unminted_is_not_found(calls, id);
    }
}

} // verus!
