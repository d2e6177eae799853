//! The ordered, presence-only store under the secondary indexes: a stable
//! B-tree map from compound keys to unit.

use ic_stable_structures::{StableBTreeMap, VectorMemory};
use vstd::prelude::*;

verus! {

/// A compound key: grouping key, timestamp, entity id. Identifiers stand in
/// it as the numbers that their bytes denote, most significant byte first.
pub type IndexKey = (u128, u64, u128);

/// The order of the keys: by grouping key, then timestamp, then entity id.
pub open spec fn key_le(a: IndexKey, b: IndexKey) -> bool {
    a.0 < b.0 || (a.0 == b.0 && (a.1 < b.1 || (a.1 == b.1 && a.2 <= b.2)))
}

/// A `ic_stable_structures::StableBTreeMap` from keys to unit, in a vector
/// memory of its own. Opaque to the verifier: what it holds is `stored_keys`.
#[verifier::external_body]
pub struct KeyStore {
    map: StableBTreeMap<IndexKey, (), VectorMemory>,
}

/// The keys that the store holds.
pub uninterp spec fn stored_keys(store: KeyStore) -> Set<IndexKey>;

/// Calls `StableBTreeMap::new` on a fresh `VectorMemory`. Trusted: a new map
/// holds nothing.
#[verifier::external_body]
pub(crate) fn key_store_new() -> (store: KeyStore)
    ensures
        stored_keys(store) == Set::<IndexKey>::empty(),
{
    KeyStore { map: StableBTreeMap::new(VectorMemory::default()) }
}

/// Calls `StableBTreeMap::get`. Trusted: it finds the unit value exactly
/// where the key is held.
#[verifier::external_body]
pub(crate) fn key_store_get(store: &KeyStore, key: &IndexKey) -> (found: Option<()>)
    ensures
        found is Some == stored_keys(*store).contains(*key),
{
    store.map.get(key)
}

/// Calls `StableBTreeMap::insert`. Trusted: afterwards the key is held, with
/// all that was held before. It aborts where the memory cannot grow.
#[verifier::external_body]
pub(crate) fn key_store_insert(store: &mut KeyStore, key: IndexKey)
    ensures
        stored_keys(*final(store)) == stored_keys(*old(store)).insert(key),
{
    store.map.insert(key, ());
}

/// Calls `StableBTreeMap::remove`. Trusted: it hands back the unit value
/// exactly where the key was held, and afterwards the key is not held.
#[verifier::external_body]
pub(crate) fn key_store_remove(store: &mut KeyStore, key: &IndexKey) -> (removed: Option<()>)
    ensures
        removed is Some == stored_keys(*old(store)).contains(*key),
        stored_keys(*final(store)) == stored_keys(*old(store)).remove(*key),
{
    store.map.remove(key)
}

/// Calls `StableBTreeMap::range` on the inclusive interval and collects the
/// keys it walks. Trusted: these are exactly the held keys that lie between
/// `start` and `end` in the order of the keys, both ends included; none
/// where `end` comes before `start`.
#[verifier::external_body]
pub(crate) fn key_store_range(store: &KeyStore, start: IndexKey, end: IndexKey) -> (keys: Vec<IndexKey>)
    ensures
        forall|key: IndexKey|
            keys@.contains(key) == (stored_keys(*store).contains(key) && key_le(start, key)
                && key_le(key, end)),
{
    store.map.range(start..=end).map(|entry| entry.0).collect()
}

} // verus!
