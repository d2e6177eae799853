//! User groups and the validation of their names.

use crate::repository::{distinct_ids, records, stored_after, stored_under, Repository};
use crate::text::{byte_len, str_equal};
use crate::types::{uuid_eq, Timestamp, UUID};
use vstd::prelude::*;

verus! {

/// Why a user group is refused.
#[derive(Clone, Debug, PartialEq, Eq)]
pub enum UserGroupError {
    /// The name is shorter than the least length.
    NameTooShort { min_length: u8 },
    /// The name is longer than the greatest length.
    NameTooLong { max_length: u8 },
    /// Another group already has the name.
    NonUniqueName { name: String },
}

/// Represents a user group within the system.
#[derive(Clone, Debug, PartialEq, Eq, Hash, PartialOrd, Ord)]
pub struct UserGroup {
    /// The user group id, which is a UUID.
    pub id: UUID,
    /// The name of the user group (e.g. "Finance").
    pub name: String,
    /// The last time the record was updated or created.
    pub last_modification_timestamp: Timestamp,
}

#[derive(Clone, Copy, Debug, PartialEq, Eq, Hash, PartialOrd, Ord)]
pub struct UserGroupKey {
    pub id: UUID,
}

/// The first group of the sequence that is named `name`.
pub open spec fn first_named(groups: Seq<UserGroup>, name: Seq<char>) -> Option<UserGroup>
    decreases groups.len(),
{
    if groups.len() == 0 {
        None
    } else if groups[0].name@ == name {
        Some(groups[0])
    } else {
        first_named(groups.drop_first(), name)
    }
}

/// The store of user groups. Its view is the entries in insertion order,
/// each a group id with the group stored under it, no id twice.
pub struct UserGroupRepository {
    store: Repository<UserGroup>,
}

impl View for UserGroupRepository {
    type V = Seq<(UUID, UserGroup)>;

    closed spec fn view(&self) -> Seq<(UUID, UserGroup)> {
        self.store@
    }
}

impl UserGroupRepository {
    /// An empty store.
    pub fn new() -> (repository: UserGroupRepository)
        ensures
            repository@ == Seq::<(UUID, UserGroup)>::empty(),
    {
        UserGroupRepository { store: Repository::new() }
    }

    /// Stores `value` under `key`. A group already stored under `key` is
    /// replaced where it stands and handed back; otherwise the new group
    /// comes last.
    pub fn insert(&mut self, key: UserGroupKey, value: UserGroup) -> (previous: Option<UserGroup>)
        ensures
            previous == stored_under(old(self)@, key.id),
            final(self)@ == stored_after(old(self)@, key.id, value),
            distinct_ids(final(self)@),
    {
        self.store.insert(key.id, value)
    }

    /// The first stored group that is named `name`.
    pub fn find_by_name(&self, name: &String) -> (found: Option<&UserGroup>)
        ensures
            match first_named(records(self@), name@) {
                Some(group) => found == Some(&group),
                None => found is None,
            },
    {
        let ghost groups = records(self@);
        let mut i: usize = 0;
        assert(groups.subrange(0, groups.len() as int) =~= groups);
        while i < self.store.len()
            invariant
                i <= self@.len(),
                groups == records(self@),
                first_named(groups, name@) == first_named(
                    groups.subrange(i as int, groups.len() as int),
                    name@,
                ),
            decreases self@.len() - i,
        {
            let ghost rest = groups.subrange(i as int, groups.len() as int);
            let group = self.store.record_at(i);
            assert(rest[0] == *group);
            if str_equal(group.name.as_str(), name.as_str()) {
                return Some(group);
            }
            assert(rest.drop_first() =~= groups.subrange(i + 1, groups.len() as int));
            i += 1;
        }
        None
    }
}

impl UserGroup {
    /// The least and the greatest length of a name, in bytes.
    pub const NAME_RANGE: (u8, u8) = (1, 50);

    pub fn key(id: UUID) -> (key: UserGroupKey)
        ensures
            key.id == id,
    {
        UserGroupKey { id }
    }

    pub fn to_key(&self) -> (key: UserGroupKey)
        ensures
            key.id == self.id,
    {
        UserGroup::key(self.id)
    }

    /// Whether the group may be stored: its name has an allowed length and
    /// no other group has it.
    pub open spec fn valid_in(&self, groups: Seq<UserGroup>) -> bool {
        name_verdict(self.name@) is Ok && unique_name_verdict(self.id, self.name@, groups) is Ok
    }

    /// Validates the group against the stored groups: first the length of
    /// its name, then that no other group has the name.
    pub fn validate(&self, repository: &UserGroupRepository) -> (verdict: Result<
        (),
        UserGroupError,
    >)
        ensures
            verdict is Ok <==> self.valid_in(records(repository@)),
            name_verdict(self.name@) is Err ==> verdict == name_verdict(self.name@),
            name_verdict(self.name@) is Ok && verdict is Err ==> (verdict matches Err(
                UserGroupError::NonUniqueName { name },
            ) && name@ == self.name@),
    {
        match validate_name(&self.name) {
            Ok(_) => {},
            Err(error) => {
                return Err(error);
            },
        }
        validate_unique_name(&self.id, &self.name, repository)
    }
}

/// What the length of a name alone decides: too short below one byte, too
/// long above fifty.
pub open spec fn name_verdict(name: Seq<char>) -> Result<(), UserGroupError> {
    if byte_len(name) < 1 {
        Err(UserGroupError::NameTooShort { min_length: 1 })
    } else if byte_len(name) > 50 {
        Err(UserGroupError::NameTooLong { max_length: 50 })
    } else {
        Ok(())
    }
}

/// Whether the name is free for the group with the given id: no stored group
/// has it, or the first that has it is the group itself.
pub open spec fn unique_name_verdict(id: UUID, name: Seq<char>, groups: Seq<UserGroup>) -> Result<
    (),
    Seq<char>,
> {
    match first_named(groups, name) {
        Some(group) => if group.id != id {
            Err(name)
        } else {
            Ok(())
        },
        None => Ok(()),
    }
}

/// Checks the length of a name, counted in bytes.
pub fn validate_name(name: &String) -> (verdict: Result<(), UserGroupError>)
    ensures
        verdict == name_verdict(name@),
{
    let length = name.as_str().as_bytes().len();
    if length < UserGroup::NAME_RANGE.0 as usize {
        return Err(UserGroupError::NameTooShort { min_length: UserGroup::NAME_RANGE.0 });
    }
    if length > UserGroup::NAME_RANGE.1 as usize {
        return Err(UserGroupError::NameTooLong { max_length: UserGroup::NAME_RANGE.1 });
    }
    Ok(())
}

/// Checks that no group other than the one with `user_group_id` is named
/// `name`.
pub fn validate_unique_name(
    user_group_id: &UUID,
    name: &String,
    repository: &UserGroupRepository,
) -> (verdict: Result<(), UserGroupError>)
    ensures
        match unique_name_verdict(*user_group_id, name@, records(repository@)) {
            Ok(_) => verdict is Ok,
            Err(taken) => (verdict matches Err(UserGroupError::NonUniqueName { name: reported })
                && reported@ == taken),
        },
{
    let current_user_group = repository.find_by_name(name);
    if let Some(current_user_group) = current_user_group {
        if !uuid_eq(&current_user_group.id, user_group_id) {
            return Err(UserGroupError::NonUniqueName { name: name.clone() });
        }
    }
    Ok(())
}

} // verus!
