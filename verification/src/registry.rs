//! The connection registry: which sessions are live, for counting and for
//! diagnostics. It never takes part in routing messages.

use std::collections::HashMap;
use vstd::prelude::*;
use vstd::std_specs::iter::IteratorSpec;

verus! {

broadcast use vstd::std_specs::hash::group_hash_axioms;

/// The little that is recorded of a live session: when its connection was
/// accepted, on whatever clock the embedding program uses.
#[derive(Clone, Copy, Debug, PartialEq, Eq, Structural)]
pub struct SessionMeta {
    pub connected_at: u64,
}

/// A map from session id to that session's metadata. A session has an entry
/// from the moment it is registered until it is deregistered.
pub struct ConnectionRegistry {
    entries: HashMap<u64, SessionMeta>,
}

impl View for ConnectionRegistry {
    type V = Map<u64, SessionMeta>;

    closed spec fn view(&self) -> Map<u64, SessionMeta> {
        self.entries@
    }
}

impl ConnectionRegistry {
    /// A registry without entries.
    pub fn new() -> (registry: ConnectionRegistry)
        ensures
            registry@ == Map::<u64, SessionMeta>::empty(),
    {
        ConnectionRegistry { entries: HashMap::new() }
    }

    /// Records `meta` under `id`, replacing what stood there. Says whether
    /// the id is new to the registry.
    pub fn register(&mut self, id: u64, meta: SessionMeta) -> (added: bool)
        ensures
            final(self)@ == old(self)@.insert(id, meta),
            added == !old(self)@.contains_key(id),
    {
        let previous = self.entries.insert(id, meta);
        previous.is_none()
    }

    /// Removes the entry of `id`, if there is one, and says whether there
    /// was: of several calls for one registration, exactly the first says so.
    pub fn deregister(&mut self, id: u64) -> (removed: bool)
        ensures
            final(self)@ == old(self)@.remove(id),
            removed == old(self)@.contains_key(id),
    {
        let previous = self.entries.remove(&id);
        previous.is_some()
    }

    /// Whether `id` has an entry.
    pub fn contains(&self, id: u64) -> (found: bool)
        ensures
            found == self@.contains_key(id),
    {
        self.entries.contains_key(&id)
    }

    /// The metadata recorded under `id`.
    pub fn get(&self, id: u64) -> (meta: Option<SessionMeta>)
        ensures
            meta == if self@.contains_key(id) {
                Some(self@[id])
            } else {
                None
            },
    {
        match self.entries.get(&id) {
            Some(found) => Some(*found),
            None => None,
        }
    }

    /// The number of entries.
    pub fn count(&self) -> (n: usize)
        ensures
            n == self@.len(),
            self@.dom().finite(),
    {
        self.entries.len()
    }

    /// A copy of all entries as they stand now, in no particular order:
    /// every entry once, and nothing else. Later changes to the registry do
    /// not show in it.
    pub fn snapshot(&self) -> (entries: Vec<(u64, SessionMeta)>)
        ensures
            entries@.len() == self@.len(),
            entries@.no_duplicates(),
            entries@.to_set() == self@.kv_pairs(),
    {
        let mut entries: Vec<(u64, SessionMeta)> = Vec::new();
        for pair in it: self.entries.iter()
            invariant
                entries@.len() == it.index(),
                forall|i: int|
                    0 <= i < entries@.len() ==> entries@[i] == (*it.seq()[i].0, *it.seq()[i].1),
        {
            let (id, meta) = pair;
            entries.push((*id, *meta));
        }
        assert(entries@ =~= self.entries.iter().remaining().unref());
        entries
    }
}

} // verus!
