//! The identity and permission store: accounts with their roles, the
//! permission configuration, and the lookups that the evaluator makes.

use crate::identity::Identity;
use crate::models::AccountId;
use crate::repository::{distinct_ids, records, stored_after, stored_under, Repository};
use crate::text::str_equal;
use crate::types::Timestamp;
use vstd::prelude::*;

verus! {

/// A coarse permission tag attached to an account.
#[derive(Clone, Copy, Debug, PartialEq, Eq, Hash, PartialOrd, Ord, Structural)]
pub enum AccessRole {
    Admin,
    User,
    Guest,
}

/// A persistent account: the identities that own it and the roles it holds.
#[derive(Clone, Debug, PartialEq, Eq, Hash, PartialOrd, Ord)]
pub struct Account {
    pub id: AccountId,
    pub identities: Vec<Identity>,
    pub unconfirmed_identities: Vec<Identity>,
    pub access_roles: Vec<AccessRole>,
    pub last_modification_timestamp: Timestamp,
}

/// The key under which an account is stored.
#[derive(Clone, Copy, Debug, PartialEq, Eq, Hash, PartialOrd, Ord)]
pub struct AccountKey {
    pub id: AccountId,
}

/// Whether some identity of the list holds exactly the bytes `caller`.
pub open spec fn identity_listed(identities: Seq<Identity>, caller: Seq<u8>) -> bool {
    exists|i: int| 0 <= i < identities.len() && (#[trigger] identities[i])@ == caller
}

/// Whether the two role lists have a role in common.
pub open spec fn roles_intersect(left: Seq<AccessRole>, right: Seq<AccessRole>) -> bool {
    exists|role: AccessRole| left.contains(role) && right.contains(role)
}

/// Whether `identity` is one of `identities`.
pub fn contains_identity(identities: &Vec<Identity>, identity: &Identity) -> (found: bool)
    ensures
        found == identity_listed(identities@, identity@),
{
    let mut i: usize = 0;
    while i < identities.len()
        invariant
            i <= identities.len(),
            forall|j: int| 0 <= j < i ==> (#[trigger] identities@[j])@ != identity@,
        decreases identities.len() - i,
    {
        if identities[i].equals(identity) {
            return true;
        }
        i += 1;
    }
    false
}

/// Whether `role` is one of `roles`.
pub fn contains_role(roles: &Vec<AccessRole>, role: AccessRole) -> (found: bool)
    ensures
        found == roles@.contains(role),
{
    let mut i: usize = 0;
    while i < roles.len()
        invariant
            i <= roles.len(),
            forall|j: int| 0 <= j < i ==> roles@[j] != role,
        decreases roles.len() - i,
    {
        if roles[i] == role {
            return true;
        }
        i += 1;
    }
    false
}

/// Whether some role of `required` is among `held`.
pub fn any_role_held(required: &Vec<AccessRole>, held: &Vec<AccessRole>) -> (found: bool)
    ensures
        found == roles_intersect(required@, held@),
{
    let mut i: usize = 0;
    while i < required.len()
        invariant
            i <= required.len(),
            forall|j: int| 0 <= j < i ==> !held@.contains(#[trigger] required@[j]),
        decreases required.len() - i,
    {
        if contains_role(held, required[i]) {
            assert(required@.contains(required@[i as int]));
            return true;
        }
        i += 1;
    }
    false
}

impl Account {
    /// Whether the identity with bytes `caller` owns the account.
    pub open spec fn owned_by(&self, caller: Seq<u8>) -> bool {
        identity_listed(self.identities@, caller)
    }

    /// Whether the account holds `role`.
    pub open spec fn has_role(&self, role: AccessRole) -> bool {
        self.access_roles@.contains(role)
    }

    /// The key for the account with the given id.
    pub fn key(id: AccountId) -> (key: AccountKey)
        ensures
            key.id == id,
    {
        AccountKey { id }
    }

    /// The key under which this account is stored.
    pub fn to_key(&self) -> (key: AccountKey)
        ensures
            key.id == self.id,
    {
        Account::key(self.id)
    }
}

/// The first account of the sequence that `caller` owns.
pub open spec fn first_owned(accounts: Seq<Account>, caller: Seq<u8>) -> Option<Account>
    decreases accounts.len(),
{
    if accounts.len() == 0 {
        None
    } else if accounts[0].owned_by(caller) {
        Some(accounts[0])
    } else {
        first_owned(accounts.drop_first(), caller)
    }
}

/// The account store. Its view is the entries in insertion order, each an
/// account id with the account stored under it, no id twice.
pub struct AccountRepository {
    store: Repository<Account>,
}

impl View for AccountRepository {
    type V = Seq<(AccountId, Account)>;

    closed spec fn view(&self) -> Seq<(AccountId, Account)> {
        self.store@
    }
}

impl AccountRepository {
    /// An empty store.
    pub fn new() -> (repository: AccountRepository)
        ensures
            repository@ == Seq::<(AccountId, Account)>::empty(),
    {
        AccountRepository { store: Repository::new() }
    }

    /// Stores `value` under `key`. An account already stored under `key` is
    /// replaced where it stands and handed back; otherwise the new account
    /// comes last.
    pub fn insert(&mut self, key: AccountKey, value: Account) -> (previous: Option<Account>)
        ensures
            previous == stored_under(old(self)@, key.id),
            final(self)@ == stored_after(old(self)@, key.id, value),
            distinct_ids(final(self)@),
    {
        self.store.insert(key.id, value)
    }

    /// The account stored under `key`.
    pub fn get(&self, key: &AccountKey) -> (found: Option<&Account>)
        ensures
            match stored_under(self@, key.id) {
                Some(account) => found == Some(&account),
                None => found is None,
            },
    {
        self.store.get(&key.id)
    }

    /// The first stored account that `identity` owns.
    pub fn find_account_by_identity(&self, identity: &Identity) -> (found: Option<&Account>)
        ensures
            match first_owned(records(self@), identity@) {
                Some(account) => found == Some(&account),
                None => found is None,
            },
    {
        let ghost accounts = records(self@);
        let mut i: usize = 0;
        assert(accounts.subrange(0, accounts.len() as int) =~= accounts);
        while i < self.store.len()
            invariant
                i <= self@.len(),
                accounts == records(self@),
                first_owned(accounts, identity@) == first_owned(
                    accounts.subrange(i as int, accounts.len() as int),
                    identity@,
                ),
            decreases self@.len() - i,
        {
            let ghost rest = accounts.subrange(i as int, accounts.len() as int);
            let account = self.store.record_at(i);
            assert(rest[0] == *account);
            if contains_identity(&account.identities, identity) {
                return Some(account);
            }
            assert(rest.drop_first() =~= accounts.subrange(i + 1, accounts.len() as int));
            i += 1;
        }
        None
    }
}

/// A configured gate: a name and the roles allowed to pass it.
#[derive(Clone, Debug, PartialEq, Eq, Hash, PartialOrd, Ord)]
pub struct Permission {
    pub permission_id: String,
    pub access_roles: Vec<AccessRole>,
}

impl Permission {
    /// Whether `role` may exercise the permission.
    pub open spec fn allows(&self, role: AccessRole) -> bool {
        self.access_roles@.contains(role)
    }
}

/// The first permission of the sequence that is named `permission_id`.
pub open spec fn find_permission(permissions: Seq<Permission>, permission_id: Seq<char>) -> Option<
    Permission,
>
    decreases permissions.len(),
{
    if permissions.len() == 0 {
        None
    } else if permissions[0].permission_id@ == permission_id {
        Some(permissions[0])
    } else {
        find_permission(permissions.drop_first(), permission_id)
    }
}

/// The process-wide configuration, loaded once and then only read.
#[derive(Clone, Debug, PartialEq, Eq)]
pub struct CanisterConfig {
    pub permissions: Vec<Permission>,
}

impl CanisterConfig {
    /// The configured permission named `permission_id`.
    pub fn find_permission(&self, permission_id: &str) -> (found: Option<&Permission>)
        ensures
            match find_permission(self.permissions@, permission_id@) {
                Some(permission) => found == Some(&permission),
                None => found is None,
            },
    {
        let mut i: usize = 0;
        assert(self.permissions@.subrange(0, self.permissions@.len() as int)
            =~= self.permissions@);
        while i < self.permissions.len()
            invariant
                i <= self.permissions.len(),
                find_permission(self.permissions@, permission_id@) == find_permission(
                    self.permissions@.subrange(i as int, self.permissions@.len() as int),
                    permission_id@,
                ),
            decreases self.permissions.len() - i,
        {
            let ghost rest = self.permissions@.subrange(i as int, self.permissions@.len() as int);
            assert(rest[0] == self.permissions@[i as int]);
            if str_equal(self.permissions[i].permission_id.as_str(), permission_id) {
                return Some(&self.permissions[i]);
            }
            assert(rest.drop_first() =~= self.permissions@.subrange(
                i + 1,
                self.permissions@.len() as int,
            ));
            i += 1;
        }
        None
    }
}

/// What the host knows of this deployment: the system's own identity and the
/// identities registered as its controllers.
#[derive(Clone, Debug, PartialEq, Eq)]
pub struct Deployment {
    pub canister_id: Identity,
    pub controllers: Vec<Identity>,
}

impl Deployment {
    /// Whether `caller` is the system itself or one of its controllers.
    pub open spec fn is_system_caller(&self, caller: Seq<u8>) -> bool {
        caller == self.canister_id@ || identity_listed(self.controllers@, caller)
    }

    /// Whether `identity` is registered as a controller.
    pub fn is_controller(&self, identity: &Identity) -> (listed: bool)
        ensures
            listed == identity_listed(self.controllers@, identity@),
    {
        contains_identity(&self.controllers, identity)
    }
}

/// Everything that an authorization decision reads.
pub struct CanisterState {
    pub deployment: Deployment,
    pub config: CanisterConfig,
    pub accounts: AccountRepository,
}

} // verus!
