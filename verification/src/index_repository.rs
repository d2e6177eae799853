//! The secondary index of operations by the transfer they refer to: an
//! ordered set of entries that answers membership and time-range queries.

use crate::indexes::{OperationId, OperationTransferIndex, OperationTransferIndexCriteria};
use crate::key_store::{
    key_le, key_store_get, key_store_insert, key_store_new, key_store_range, key_store_remove,
    stored_keys, IndexKey, KeyStore,
};
use crate::types::{
    be_value, bytes_le, lemma_be_value_ones, lemma_be_value_ordered, lemma_be_value_zeros,
    lemma_pow256_sixteen, lemma_uuid_value_fits, lemma_uuid_value_injective, uuid_eq,
    uuid_from_u128, uuid_to_u128,
};
use vstd::prelude::*;

verus! {

broadcast use vstd::array::group_array_axioms;

/// The compound key of an entry: its fields in order, the identifiers as the
/// numbers that their bytes denote.
pub open spec fn operation_index_key(entry: OperationTransferIndex) -> IndexKey {
    (be_value(entry.transfer_id@) as u128, entry.created_at, be_value(entry.id@) as u128)
}

/// Distinct entries have distinct keys.
pub proof fn lemma_operation_index_key_injective(
    a: OperationTransferIndex,
    b: OperationTransferIndex,
)
    requires
        operation_index_key(a) == operation_index_key(b),
    ensures
        a == b,
{
    lemma_uuid_value_fits(a.transfer_id);
    lemma_uuid_value_fits(b.transfer_id);
    lemma_uuid_value_fits(a.id);
    lemma_uuid_value_fits(b.id);
    lemma_uuid_value_injective(a.transfer_id, b.transfer_id);
    lemma_uuid_value_injective(a.id, b.id);
}

/// The order of the entries: by transfer, then by creation time, then by
/// operation, identifiers byte by byte.
pub open spec fn operation_index_le(a: OperationTransferIndex, b: OperationTransferIndex) -> bool {
    if a.transfer_id != b.transfer_id {
        bytes_le(a.transfer_id@, b.transfer_id@)
    } else if a.created_at != b.created_at {
        a.created_at < b.created_at
    } else {
        bytes_le(a.id@, b.id@)
    }
}

/// The compound keys stand in the order of their entries, so a scan of the
/// keys between two bounds is a scan of the entries between them.
pub proof fn lemma_operation_index_key_ordered(
    a: OperationTransferIndex,
    b: OperationTransferIndex,
)
    ensures
        operation_index_le(a, b) <==> key_le(operation_index_key(a), operation_index_key(b)),
{
    lemma_uuid_value_fits(a.transfer_id);
    lemma_uuid_value_fits(b.transfer_id);
    lemma_uuid_value_fits(a.id);
    lemma_uuid_value_fits(b.id);
    lemma_be_value_ordered(a.transfer_id@, b.transfer_id@);
    lemma_be_value_ordered(a.id@, b.id@);
    if be_value(a.transfer_id@) == be_value(b.transfer_id@) {
        lemma_uuid_value_injective(a.transfer_id, b.transfer_id);
    }
    if be_value(a.id@) == be_value(b.id@) {
        lemma_uuid_value_injective(a.id, b.id);
    }
}

impl OperationTransferIndexCriteria {
    /// The earliest timestamp that the criteria admit: the whole past where
    /// no bound is set.
    pub open spec fn earliest(&self) -> u64 {
        match self.from_dt {
            Some(from) => from,
            None => u64::MIN,
        }
    }

    /// The latest timestamp that the criteria admit: the whole future where
    /// no bound is set.
    pub open spec fn latest(&self) -> u64 {
        match self.to_dt {
            Some(to) => to,
            None => u64::MAX,
        }
    }

    /// Whether the entry belongs to the transfer and falls in the interval,
    /// both ends included.
    pub open spec fn admits(&self, entry: OperationTransferIndex) -> bool {
        entry.transfer_id == self.transfer_id && self.earliest() <= entry.created_at
            <= self.latest()
    }
}

/// The ids of the entries that the criteria admit.
pub open spec fn found_ids(
    entries: Set<OperationTransferIndex>,
    criteria: OperationTransferIndexCriteria,
) -> Set<OperationId> {
    Set::new(
        |id: OperationId|
            exists|entry: OperationTransferIndex|
                #[trigger] entries.contains(entry) && criteria.admits(entry) && entry.id == id,
    )
}

/// The synthetic bound keys of a query: the grouping key, the ends of the
/// interval, and the least and the greatest entity id.
pub fn range_bounds(criteria: &OperationTransferIndexCriteria) -> (bounds: (
    OperationTransferIndex,
    OperationTransferIndex,
))
    ensures
        bounds.0.transfer_id == criteria.transfer_id,
        bounds.0.created_at == criteria.earliest(),
        bounds.0.id@ == Seq::new(16, |i: int| u8::MIN),
        bounds.1.transfer_id == criteria.transfer_id,
        bounds.1.created_at == criteria.latest(),
        bounds.1.id@ == Seq::new(16, |i: int| u8::MAX),
{
    let start_key = OperationTransferIndex {
        transfer_id: criteria.transfer_id,
        created_at: match criteria.from_dt {
            Some(from) => from,
            None => u64::MIN,
        },
        id: [u8::MIN;16],
    };
    let end_key = OperationTransferIndex {
        transfer_id: criteria.transfer_id,
        created_at: match criteria.to_dt {
            Some(to) => to,
            None => u64::MAX,
        },
        id: [u8::MAX;16],
    };
    assert(start_key.id@ =~= Seq::new(16, |i: int| u8::MIN));
    assert(end_key.id@ =~= Seq::new(16, |i: int| u8::MAX));
    (start_key, end_key)
}

/// Computes the compound key of an entry.
pub fn index_key_of(entry: &OperationTransferIndex) -> (key: IndexKey)
    ensures
        key == operation_index_key(*entry),
{
    (uuid_to_u128(&entry.transfer_id), entry.created_at, uuid_to_u128(&entry.id))
}

/// Whether `id` is one of `ids`.
pub fn contains_id(ids: &Vec<OperationId>, id: &OperationId) -> (found: bool)
    ensures
        found == ids@.contains(*id),
{
    let mut i: usize = 0;
    while i < ids.len()
        invariant
            i <= ids.len(),
            forall|j: int| 0 <= j < i ==> ids@[j] != *id,
        decreases ids.len() - i,
    {
        if uuid_eq(&ids[i], id) {
            return true;
        }
        i += 1;
    }
    false
}

/// A secondary index: a set of entries of type `Index`, each of which refers
/// to a record by an id of type `RecordId`. The index holds membership only,
/// never the records.
pub trait IndexRepository<Index, RecordId> {
    /// What a query is made with.
    type FindByCriteria;

    /// The entries in the index.
    spec fn entries(&self) -> Set<Index>;

    /// The ids that a query finds among the entries.
    spec fn matching(entries: Set<Index>, criteria: Self::FindByCriteria) -> Set<RecordId>;

    /// Whether the entry is in the index.
    fn contains(&self, key: &Index) -> (present: bool)
        ensures
            present == self.entries().contains(*key),
    ;

    /// Puts the entry into the index. Inserting an entry that is already
    /// there changes nothing.
    fn insert(&mut self, key: Index)
        ensures
            final(self).entries() == old(self).entries().insert(key),
    ;

    /// Takes the entry out of the index, and says whether it was there.
    /// Removing an entry that is not there changes nothing.
    fn remove(&mut self, key: &Index) -> (removed: bool)
        ensures
            removed == old(self).entries().contains(*key),
            final(self).entries() == old(self).entries().remove(*key),
            !removed ==> final(self).entries() == old(self).entries(),
    ;

    /// The ids that the query finds, each id once, in no stated order. They
    /// come as a vector without duplicates: vstd specifies hash sets for
    /// integer keys only, and an id is sixteen bytes.
    fn find_by_criteria(&self, criteria: Self::FindByCriteria) -> (ids: Vec<RecordId>)
        ensures
            ids@.no_duplicates(),
            ids@.to_set() == Self::matching(self.entries(), criteria),
    ;
}

/// A repository that enables finding operations based on the transfer.
pub struct OperationTransferIndexRepository {
    store: KeyStore,
}

impl View for OperationTransferIndexRepository {
    type V = Set<OperationTransferIndex>;

    closed spec fn view(&self) -> Set<OperationTransferIndex> {
        Set::new(
            |entry: OperationTransferIndex|
                stored_keys(self.store).contains(operation_index_key(entry)),
        )
    }
}

impl Default for OperationTransferIndexRepository {
    /// An index without entries, over a store of its own.
    fn default() -> (repository: OperationTransferIndexRepository)
        ensures
            repository@ == Set::<OperationTransferIndex>::empty(),
    {
        let repository = OperationTransferIndexRepository { store: key_store_new() };
        assert(repository@ =~= Set::<OperationTransferIndex>::empty());
        repository
    }
}

impl IndexRepository<OperationTransferIndex, OperationId> for OperationTransferIndexRepository {
    type FindByCriteria = OperationTransferIndexCriteria;

    open spec fn entries(&self) -> Set<OperationTransferIndex> {
        self@
    }

    open spec fn matching(
        entries: Set<OperationTransferIndex>,
        criteria: OperationTransferIndexCriteria,
    ) -> Set<OperationId> {
        found_ids(entries, criteria)
    }

    fn contains(&self, key: &OperationTransferIndex) -> (present: bool) {
        key_store_get(&self.store, &index_key_of(key)).is_some()
    }

    fn insert(&mut self, key: OperationTransferIndex) {
        let stored = index_key_of(&key);
        key_store_insert(&mut self.store, stored);
        proof {
            assert forall|entry: OperationTransferIndex|
                self@.contains(entry) == old(self)@.insert(key).contains(entry) by {
                if operation_index_key(entry) == stored {
                    lemma_operation_index_key_injective(entry, key);
                }
            }
            assert(self@ =~= old(self)@.insert(key));
        }
    }

    fn remove(&mut self, key: &OperationTransferIndex) -> (removed: bool) {
        let stored = index_key_of(key);
        let removed = key_store_remove(&mut self.store, &stored).is_some();
        proof {
            assert forall|entry: OperationTransferIndex|
                self@.contains(entry) == old(self)@.remove(*key).contains(entry) by {
                if operation_index_key(entry) == stored {
                    lemma_operation_index_key_injective(entry, *key);
                }
            }
            assert(self@ =~= old(self)@.remove(*key));
            if !removed {
                assert(old(self)@.remove(*key) =~= old(self)@);
            }
        }
        removed
    }

    /// The ids of the operations that refer to the transfer of the criteria
    /// and were created in its interval, each id once, in no stated order.
    /// Bounds that are not set leave that side of the interval open.
    fn find_by_criteria(&self, criteria: OperationTransferIndexCriteria) -> (ids: Vec<
        OperationId,
    >) {
        let (start_key, end_key) = range_bounds(&criteria);
        let start = index_key_of(&start_key);
        let end = index_key_of(&end_key);
        proof {
            lemma_be_value_zeros(start_key.id@);
            lemma_be_value_ones(end_key.id@);
            lemma_pow256_sixteen();
        }
        let keys = key_store_range(&self.store, start, end);
        let mut ids: Vec<OperationId> = Vec::new();
        let mut i: usize = 0;
        while i < keys.len()
            invariant
                i <= keys.len(),
                ids@.no_duplicates(),
                forall|id: OperationId|
                    ids@.contains(id) <==> exists|j: int|
                        0 <= j < i && (#[trigger] keys@[j]).2 == be_value(id@),
            decreases keys.len() - i,
        {
            let id = uuid_from_u128(keys[i].2);
            let ghost before = ids@;
            let present = contains_id(&ids, &id);
            if !present {
                ids.push(id);
            }
            proof {
                if present {
                    assert(ids@ == before);
                } else {
                    assert(ids@ == before.push(id));
                    assert(ids@[before.len() as int] == id);
                }
                assert forall|other: OperationId| before.contains(other) implies ids@.contains(
                    other,
                ) by {
                    let k = choose|k: int| 0 <= k < before.len() && before[k] == other;
                    assert(ids@[k] == other);
                }
                assert forall|other: OperationId| ids@.contains(other) <==> exists|j: int|
                    0 <= j < i + 1 && (#[trigger] keys@[j]).2 == be_value(other@) by {
                    if ids@.contains(other) {
                        if before.contains(other) {
                            let j = choose|j: int|
                                0 <= j < i && (#[trigger] keys@[j]).2 == be_value(other@);
                            assert(0 <= j < i + 1 && keys@[j].2 == be_value(other@));
                        } else {
                            let k = choose|k: int| 0 <= k < ids@.len() && ids@[k] == other;
                            assert(k == before.len());
                            assert(other == id);
                            assert(keys@[i as int].2 == be_value(other@));
                        }
                    }
                    if exists|j: int| 0 <= j < i + 1 && (#[trigger] keys@[j]).2 == be_value(other@) {
                        let j = choose|j: int|
                            0 <= j < i + 1 && (#[trigger] keys@[j]).2 == be_value(other@);
                        if j < i {
                            assert(before.contains(other));
                        } else {
                            lemma_uuid_value_injective(other, id);
                            if present {
                                assert(before.contains(id));
                            }
                        }
                        assert(ids@.contains(other));
                    }
                }
            }
            i += 1;
        }
        proof {
            let entries = self@;
            assert forall|id: OperationId| ids@.to_set().contains(id) == found_ids(
                entries,
                criteria,
            ).contains(id) by {
                if ids@.contains(id) {
                    let j = choose|j: int|
                        0 <= j < i && (#[trigger] keys@[j]).2 == be_value(id@);
                    let key = keys@[j];
                    assert(keys@.contains(key));
                    let entry = OperationTransferIndex {
                        transfer_id: criteria.transfer_id,
                        created_at: key.1,
                        id,
                    };
                    lemma_uuid_value_fits(id);
                    assert(key_le(start, key) && key_le(key, end));
                    assert(operation_index_key(entry) == key);
                    assert(entries.contains(entry) && criteria.admits(entry) && entry.id == id);
                }
                if found_ids(entries, criteria).contains(id) {
                    let entry = choose|entry: OperationTransferIndex|
                        #[trigger] entries.contains(entry) && criteria.admits(entry) && entry.id
                            == id;
                    let key = operation_index_key(entry);
                    lemma_uuid_value_fits(id);
                    assert(key_le(start, key) && key_le(key, end));
                    assert(keys@.contains(key));
                    let j = choose|j: int| 0 <= j < keys@.len() && keys@[j] == key;
                    assert(keys@[j].2 == be_value(id@));
                }
            }
            assert(ids@.to_set() =~= found_ids(entries, criteria));
        }
        ids
    }
}

/// After an entry is inserted it is in the index; after it is removed again
/// it is not; and removing an entry that is not in the index leaves the
/// index as it was.
pub proof fn lemma_index_round_trip(
    entries: Set<OperationTransferIndex>,
    key: OperationTransferIndex,
)
    ensures
        entries.insert(key).contains(key),
        !entries.insert(key).remove(key).contains(key),
        !entries.contains(key) ==> entries.remove(key) == entries,
        entries.contains(key) ==> entries.insert(key) == entries,
{
    if !entries.contains(key) {
        assert(entries.remove(key) =~= entries);
    } else {
        assert(entries.insert(key) =~= entries);
    }
}

} // verus!
