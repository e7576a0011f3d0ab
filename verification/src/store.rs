//! The correlation store: the single shared table that adjudicates the race
//! between an inbound reply and a timeout.
//!
//! The store maps a correlation key to a single-use reply slot.  A key is
//! present exactly while a reply is outstanding for it.  Insertion and
//! removal are the only mutations; removal is the sole way to claim a slot,
//! and whichever of the reply router and the timeout task removes the key
//! first owns the slot.  The caller serializes access (one lock around the
//! whole table); atomicity of [`CorrelationStore::remove`] under that lock is
//! what decides the race, so the loser observes an absent key and does
//! nothing.

use vstd::prelude::*;
use std::collections::HashMap;

verus! {

broadcast use vstd::std_specs::hash::group_hash_axioms;

/// What a claim returns and leaves behind: the slot and the table without the
/// key when the key is present, nothing and the unchanged table otherwise.
pub open spec fn spec_claim<V>(m: Map<u128, V>, key: u128) -> (Option<V>, Map<u128, V>) {
    if m.contains_key(key) {
        (Some(m[key]), m.remove(key))
    } else {
        (None, m)
    }
}

/// In-memory table of outstanding reply slots, keyed by correlation key.
pub struct CorrelationStore<V> {
    table: HashMap<u128, V>,
}

impl<V> CorrelationStore<V> {
    /// The store as a map from keys to the slots outstanding for them.
    pub closed spec fn view(&self) -> Map<u128, V> {
        self.table@
    }

    /// An empty store: no reply is outstanding.
    pub fn new() -> (s: Self)
        ensures
            s@ == Map::<u128, V>::empty(),
    {
        CorrelationStore { table: HashMap::new() }
    }

    /// Opens an entry for a newly delivered prompt.  A duplicate key would be
    /// overwritten silently; key uniqueness (see [`crate::keys`]) rules that
    /// out for concurrently outstanding prompts.
    pub fn insert(&mut self, key: u128, slot: V)
        ensures
            final(self)@ == old(self)@.insert(key, slot),
    {
        self.table.insert(key, slot);
    }

    /// Atomic get-and-delete: the sole mechanism for claiming a slot.
    /// Returns the slot exactly when the key was present, and then removes
    /// it, so no later claim of the same key can succeed.
    pub fn remove(&mut self, key: u128) -> (r: Option<V>)
        ensures
            (r, final(self)@) == spec_claim(old(self)@, key),
    {
        self.table.remove(&key)
    }

    /// How many replies are outstanding.
    pub fn len(&self) -> (n: usize)
        ensures
            n == self@.len(),
    {
        self.table.len()
    }

    /// Whether no reply is outstanding.
    pub fn is_empty(&self) -> (r: bool)
        ensures
            r == self@.dom().is_empty(),
    {
        self.table.is_empty()
    }
}

/// Inserting a slot under a fresh key and then claiming that key hands the
/// very slot back, exactly once: the claim empties the entry, and a second
/// claim of the same key finds nothing and changes nothing.
pub proof fn lemma_insert_then_claim<V>(m: Map<u128, V>, key: u128, slot: V)
    requires
        !m.contains_key(key),
    ensures
        spec_claim(m.insert(key, slot), key) == (Some(slot), m),
        spec_claim(m, key) == (None::<V>, m),
{
    assert(m.insert(key, slot).remove(key) =~= m);
}

/// The race between the reply router and the timeout task, serialized by the
/// table lock: with the key outstanding, of two claims in either order the
/// first obtains the slot and the second obtains nothing.  Exactly one of
/// the two resolves the waiting caller - never both, never neither.
pub proof fn lemma_claim_exactly_once<V>(m: Map<u128, V>, key: u128)
    requires
        m.contains_key(key),
    ensures
        ({
            let (first, after) = spec_claim(m, key);
            let (second, last) = spec_claim(after, key);
            first == Some(m[key]) && second is None && last == after
        }),
{
}

/// A claim of an absent key - a duplicate or late reply event, or the losing
/// side of the race - produces no slot and no store mutation.
pub proof fn lemma_claim_absent<V>(m: Map<u128, V>, key: u128)
    requires
        !m.contains_key(key),
    ensures
        spec_claim(m, key) == (None::<V>, m),
{
}

} // verus!
