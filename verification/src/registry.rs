//! The session registry: a process-wide concurrent map from an opaque
//! context id to the transaction state of that unit of work.
//!
//! The request pipeline inserts a transaction under a fresh context id at
//! unit-of-work start, handler code fetches it by id while handling, and the
//! pipeline removes the entry at unit-of-work end on every exit path. Each
//! per-key operation is individually atomic under concurrent access; nothing
//! is promised across keys.

use vstd::prelude::*;
use crate::transaction::Transaction;

verus! {

/// The process-wide map from context id to transaction state, backed by a
/// sharded concurrent hash map.
#[verifier::external_body]
pub struct SessionRegistry {
    map: dashmap::DashMap<String, Transaction>,
}

/// What the registry's concurrent map holds, keyed by context id.
pub uninterp spec fn registry_entries(r: &SessionRegistry) -> Map<Seq<char>, Transaction>;

/// A registry with nothing published yet.
pub open spec fn no_entries() -> Map<Seq<char>, Transaction> {
    Map::empty()
}

impl View for SessionRegistry {
    type V = Map<Seq<char>, Transaction>;

    open spec fn view(&self) -> Map<Seq<char>, Transaction> {
        registry_entries(self)
    }
}

impl SessionRegistry {
    /// An empty registry. Relies on `dashmap::DashMap::new`: the created
    /// map is empty.
    #[verifier::external_body]
    pub fn new() -> (r: SessionRegistry)
        ensures
            registry_entries(&r) == no_entries(),
    {
        SessionRegistry { map: dashmap::DashMap::new() }
    }

    /// Publishes the transaction state under the context id, replacing
    /// whatever the id held. Relies on `dashmap::DashMap::insert`: maps the
    /// key to the value.
    #[verifier::external_body]
    pub fn insert(&mut self, id: &str, tx: Transaction)
        ensures
            registry_entries(final(self)) == registry_entries(old(self)).insert(id@, tx),
    {
        self.map.insert(id.to_string(), tx);
    }

    /// The transaction state under the context id, if the id is registered.
    /// Relies on `dashmap::DashMap::get`: the value under the key, if the
    /// key is present.
    #[verifier::external_body]
    pub fn get(&self, id: &str) -> (r: Option<Transaction>)
        ensures
            r == if registry_entries(self).dom().contains(id@) {
                Some(registry_entries(self)[id@])
            } else {
                None::<Transaction>
            },
    {
        self.map.get(id).map(|e| *e.value())
    }

    /// Withdraws the context id's entry, if any. Relies on
    /// `dashmap::DashMap::remove`: the entry under the key is gone.
    #[verifier::external_body]
    pub fn remove(&mut self, id: &str)
        ensures
            registry_entries(final(self)) == registry_entries(old(self)).remove(id@),
    {
        self.map.remove(id);
    }
}

/// What one caller publishes under a context id, any caller that then looks
/// the id up receives: inserting and getting yield the same transaction
/// state.
pub proof fn lemma_insert_then_get(
    entries: Map<Seq<char>, Transaction>,
    id: Seq<char>,
    tx: Transaction,
)
    ensures
        entries.insert(id, tx).dom().contains(id),
        entries.insert(id, tx)[id] == tx,
{
}

} // verus!
