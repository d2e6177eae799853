//! A primary store of records by id: the records in insertion order, at most
//! one under each id.

use crate::types::{uuid_eq, UUID};
use vstd::prelude::*;

verus! {

/// The record of the first entry stored under `id`.
pub open spec fn stored_under<T>(entries: Seq<(UUID, T)>, id: UUID) -> Option<T>
    decreases entries.len(),
{
    if entries.len() == 0 {
        None
    } else if entries[0].0 == id {
        Some(entries[0].1)
    } else {
        stored_under(entries.drop_first(), id)
    }
}

/// The position of the first entry stored under `id`, or the number of
/// entries where there is none.
pub open spec fn position_of<T>(entries: Seq<(UUID, T)>, id: UUID) -> int
    decreases entries.len(),
{
    if entries.len() == 0 {
        0
    } else if entries[0].0 == id {
        0
    } else {
        1 + position_of(entries.drop_first(), id)
    }
}

/// The entries after `record` is stored under `id`: in place of the first
/// entry under `id`, or last where there is none.
pub open spec fn stored_after<T>(entries: Seq<(UUID, T)>, id: UUID, record: T) -> Seq<(UUID, T)> {
    let i = position_of(entries, id);
    if i < entries.len() {
        entries.update(i, (id, record))
    } else {
        entries.push((id, record))
    }
}

/// Whether no id occurs twice among the entries.
pub open spec fn distinct_ids<T>(entries: Seq<(UUID, T)>) -> bool {
    forall|i: int, j: int|
        0 <= i < j < entries.len() ==> (#[trigger] entries[i]).0 != (#[trigger] entries[j]).0
}

/// The records of the entries, in their order.
pub open spec fn records<T>(entries: Seq<(UUID, T)>) -> Seq<T> {
    entries.map_values(|entry: (UUID, T)| entry.1)
}

/// Replacing the first entry under an id by another under that id changes
/// what is stored under the id, and nothing under any other.
pub proof fn lemma_stored_under_update<T>(entries: Seq<(UUID, T)>, i: int, entry: (UUID, T))
    requires
        0 <= i < entries.len(),
        entries[i].0 == entry.0,
        forall|j: int| 0 <= j < i ==> (#[trigger] entries[j]).0 != entry.0,
    ensures
        position_of(entries, entry.0) == i,
        stored_under(entries, entry.0) == Some(entries[i].1),
        stored_under(entries.update(i, entry), entry.0) == Some(entry.1),
        forall|other: UUID|
            other != entry.0 ==> stored_under(entries.update(i, entry), other) == stored_under(
                entries,
                other,
            ),
    decreases entries.len(),
{
    let updated = entries.update(i, entry);
    let rest = entries.drop_first();
    if i == 0 {
        assert(updated.drop_first() =~= rest);
        assert forall|other: UUID| other != entry.0 implies stored_under(updated, other)
            == stored_under(entries, other) by {
            assert(stored_under(updated, other) == stored_under(updated.drop_first(), other));
            assert(stored_under(entries, other) == stored_under(rest, other));
        }
    } else {
        assert(updated.drop_first() =~= rest.update(i - 1, entry));
        assert(entries[0].0 != entry.0);
        assert(updated[0] == entries[0]);
        assert forall|j: int| 0 <= j < i - 1 implies (#[trigger] rest[j]).0 != entry.0 by {
            assert(rest[j] == entries[j + 1]);
        }
        lemma_stored_under_update(rest, i - 1, entry);
        assert forall|other: UUID| other != entry.0 implies stored_under(updated, other)
            == stored_under(entries, other) by {
            if entries[0].0 != other {
                assert(stored_under(updated, other) == stored_under(updated.drop_first(), other));
                assert(stored_under(entries, other) == stored_under(rest, other));
            }
        }
    }
}

/// Appending an entry under an id that holds nothing stores it under that
/// id, and changes nothing under any other.
pub proof fn lemma_stored_under_push<T>(entries: Seq<(UUID, T)>, entry: (UUID, T))
    requires
        forall|j: int| 0 <= j < entries.len() ==> (#[trigger] entries[j]).0 != entry.0,
    ensures
        position_of(entries, entry.0) == entries.len(),
        stored_under(entries, entry.0) == None::<T>,
        stored_under(entries.push(entry), entry.0) == Some(entry.1),
        forall|other: UUID|
            other != entry.0 ==> stored_under(entries.push(entry), other) == stored_under(
                entries,
                other,
            ),
    decreases entries.len(),
{
    let pushed = entries.push(entry);
    if entries.len() == 0 {
        assert(pushed.drop_first() =~= entries);
        assert forall|other: UUID| other != entry.0 implies stored_under(pushed, other)
            == stored_under(entries, other) by {
            assert(stored_under(pushed, other) == stored_under(pushed.drop_first(), other));
            assert(stored_under(entries, other) == None::<T>);
        }
    } else {
        let rest = entries.drop_first();
        assert(pushed.drop_first() =~= rest.push(entry));
        assert(entries[0].0 != entry.0);
        assert forall|j: int| 0 <= j < rest.len() implies (#[trigger] rest[j]).0 != entry.0 by {
            assert(rest[j] == entries[j + 1]);
        }
        lemma_stored_under_push(rest, entry);
        assert(pushed[0] == entries[0]);
        assert forall|other: UUID| other != entry.0 implies stored_under(pushed, other)
            == stored_under(entries, other) by {
            if entries[0].0 != other {
                assert(stored_under(pushed, other) == stored_under(pushed.drop_first(), other));
                assert(stored_under(entries, other) == stored_under(rest, other));
            }
        }
    }
}

/// The position of the first entry under an id lies within the entries or
/// just behind them, and no entry before it is stored under the id.
pub proof fn lemma_position_of<T>(entries: Seq<(UUID, T)>, id: UUID)
    ensures
        0 <= position_of(entries, id) <= entries.len(),
        position_of(entries, id) < entries.len() ==> entries[position_of(entries, id)].0 == id,
        forall|j: int| 0 <= j < position_of(entries, id) ==> (#[trigger] entries[j]).0 != id,
    decreases entries.len(),
{
    if entries.len() > 0 && entries[0].0 != id {
        let rest = entries.drop_first();
        lemma_position_of(rest, id);
        assert forall|j: int| 0 <= j < position_of(entries, id) implies (#[trigger] entries[j]).0
            != id by {
            if j > 0 {
                assert(entries[j] == rest[j - 1]);
            }
        }
    }
}

/// What was stored last under an id is what is found under it, and storing
/// under one id changes nothing under any other.
pub proof fn lemma_stored_after<T>(entries: Seq<(UUID, T)>, id: UUID, record: T)
    ensures
        stored_under(stored_after(entries, id, record), id) == Some(record),
        forall|other: UUID|
            other != id ==> stored_under(stored_after(entries, id, record), other)
                == stored_under(entries, other),
{
    lemma_position_of(entries, id);
    let i = position_of(entries, id);
    if i < entries.len() {
        lemma_stored_under_update(entries, i, (id, record));
    } else {
        lemma_stored_under_push(entries, (id, record));
    }
}

/// Records by id. Its view is the entries in insertion order, no id twice.
/// The records are held in memory as values: a stable map stores what
/// implements its `Storable` trait, which asks for the bytes of a record,
/// and turning records into bytes is the caller's part.
pub struct Repository<T> {
    entries: Vec<(UUID, T)>,
}

impl<T> View for Repository<T> {
    type V = Seq<(UUID, T)>;

    closed spec fn view(&self) -> Seq<(UUID, T)> {
        self.entries@
    }
}

impl<T> Repository<T> {
    #[verifier::type_invariant]
    spec fn no_id_twice(self) -> bool {
        distinct_ids(self.entries@)
    }

    /// An empty store.
    pub fn new() -> (repository: Repository<T>)
        ensures
            repository@ == Seq::<(UUID, T)>::empty(),
    {
        Repository { entries: Vec::new() }
    }

    /// The number of entries, no two of them under one id.
    pub fn len(&self) -> (n: usize)
        ensures
            n == self@.len(),
            distinct_ids(self@),
    {
        proof {
            use_type_invariant(self);
        }
        self.entries.len()
    }

    /// The record of the entry at position `i`.
    pub fn record_at(&self, i: usize) -> (record: &T)
        requires
            i < self@.len(),
        ensures
            *record == self@[i as int].1,
    {
        &self.entries[i].1
    }

    /// The position of the first entry stored under `id`.
    fn position(&self, id: &UUID) -> (found: Option<usize>)
        ensures
            match found {
                Some(i) => i < self@.len() && self@[i as int].0 == *id && forall|j: int|
                    0 <= j < i ==> (#[trigger] self@[j]).0 != *id,
                None => forall|j: int| 0 <= j < self@.len() ==> (#[trigger] self@[j]).0 != *id,
            },
    {
        let mut i: usize = 0;
        while i < self.entries.len()
            invariant
                i <= self.entries.len(),
                forall|j: int| 0 <= j < i ==> (#[trigger] self@[j]).0 != *id,
            decreases self.entries.len() - i,
        {
            if uuid_eq(&self.entries[i].0, id) {
                return Some(i);
            }
            i += 1;
        }
        None
    }

    /// The record stored under `id`.
    pub fn get(&self, id: &UUID) -> (found: Option<&T>)
        ensures
            match stored_under(self@, *id) {
                Some(record) => found == Some(&record),
                None => found is None,
            },
    {
        match self.position(id) {
            Some(i) => {
                proof {
                    lemma_stored_under_update(self@, i as int, self@[i as int]);
                }
                Some(&self.entries[i].1)
            },
            None => {
                proof {
                    lemma_stored_under_push(self@, (*id, arbitrary()));
                }
                None
            },
        }
    }

    /// Stores `record` under `id`. A record already stored under `id` is
    /// replaced where it stands and handed back; otherwise the new record
    /// comes last.
    pub fn insert(&mut self, id: UUID, record: T) -> (previous: Option<T>)
        ensures
            previous == stored_under(old(self)@, id),
            final(self)@ == stored_after(old(self)@, id, record),
            distinct_ids(final(self)@),
            stored_under(final(self)@, id) == Some(record),
            forall|other: UUID|
                other != id ==> stored_under(final(self)@, other) == stored_under(
                    old(self)@,
                    other,
                ),
    {
        proof {
            use_type_invariant(&*self);
        }
        let ghost before = self@;
        let found = self.position(&id);
        let mut entries: Vec<(UUID, T)> = Vec::new();
        std::mem::swap(&mut self.entries, &mut entries);
        let previous = match found {
            Some(i) => {
                let removed = entries.remove(i);
                entries.insert(i, (id, record));
                proof {
                    lemma_stored_under_update(before, i as int, (id, record));
                    assert(entries@ =~= before.update(i as int, (id, record)));
                    assert forall|j: int, k: int|
                        0 <= j < k < entries@.len() implies (#[trigger] entries@[j]).0 != (
                    #[trigger] entries@[k]).0 by {
                        assert(entries@[j].0 == before[j].0);
                        assert(entries@[k].0 == before[k].0);
                    }
                    assert(distinct_ids(entries@));
                }
                Some(removed.1)
            },
            None => {
                entries.push((id, record));
                proof {
                    lemma_stored_under_push(before, (id, record));
                    assert forall|j: int, k: int|
                        0 <= j < k < entries@.len() implies (#[trigger] entries@[j]).0 != (
                    #[trigger] entries@[k]).0 by {
                        assert(entries@[j] == before[j]);
                        if k < before.len() {
                            assert(entries@[k] == before[k]);
                        }
                    }
                    assert(distinct_ids(entries@));
                }
                None
            },
        };
        self.entries = entries;
        previous
    }
}

} // verus!
