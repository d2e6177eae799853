//! The models that request operations carry: the vocabulary of accounts,
//! users, permissions and policies. The policy rule, the request specifier
//! and the resource are references that this core stores and hands on
//! without reading them.

use crate::types::UUID;
use vstd::prelude::*;

verus! {

pub type AccountId = UUID;

pub type AddressBookEntryId = UUID;

pub type UserId = UUID;

pub type UserGroupId = UUID;

#[derive(Clone, Copy, Debug, PartialEq, Eq, Hash, PartialOrd, Ord, Structural)]
pub enum Blockchain {
    InternetComputer,
    Ethereum,
    Bitcoin,
}

#[derive(Clone, Copy, Debug, PartialEq, Eq, Hash, PartialOrd, Ord, Structural)]
pub enum BlockchainStandard {
    Native,
    ICRC1,
    ERC20,
}

#[derive(Clone, Copy, Debug, PartialEq, Eq, Hash, PartialOrd, Ord, Structural)]
pub enum UserStatus {
    Active,
    Inactive,
}

/// One entry of a record's metadata.
#[derive(Clone, Debug, PartialEq, Eq, Hash, PartialOrd, Ord)]
pub struct MetadataItem {
    pub key: String,
    pub value: String,
}

/// The metadata of a record.
#[derive(Clone, Debug, PartialEq, Eq, Hash, PartialOrd, Ord)]
pub struct Metadata {
    pub items: Vec<MetadataItem>,
}

/// A change to the metadata of a record.
#[derive(Clone, Debug, PartialEq, Eq, Hash, PartialOrd, Ord)]
pub enum ChangeMetadata {
    ReplaceAllBy(Vec<MetadataItem>),
    OverrideSpecifiedBy(Vec<MetadataItem>),
    RemoveKeys(Vec<String>),
}

/// Who a permission is open to.
#[derive(Clone, Copy, Debug, PartialEq, Eq, Hash, PartialOrd, Ord, Structural)]
pub enum AuthScope {
    Public,
    Authenticated,
    Restricted,
}

/// The users and groups that may exercise a permission.
#[derive(Clone, Debug, PartialEq, Eq, Hash, PartialOrd, Ord)]
pub struct Allow {
    pub auth_scope: AuthScope,
    pub users: Vec<UserId>,
    pub user_groups: Vec<UserGroupId>,
}

/// A reference to a rule of the policy engine, in its stored form.
#[derive(Clone, Debug, PartialEq, Eq, Hash, PartialOrd, Ord)]
pub struct RequestPolicyRule {
    pub encoded: Vec<u8>,
}

/// What an edit does to a policy rule.
#[derive(Clone, Debug, PartialEq, Eq, Hash, PartialOrd, Ord)]
pub enum RequestPolicyRuleInput {
    Remove,
    Assign(RequestPolicyRule),
}

/// A reference to the requests that a policy applies to, in its stored form.
#[derive(Clone, Debug, PartialEq, Eq, Hash, PartialOrd, Ord)]
pub struct RequestSpecifier {
    pub encoded: Vec<u8>,
}

/// A reference to what a permission guards, in its stored form.
#[derive(Clone, Debug, PartialEq, Eq, Hash, PartialOrd, Ord)]
pub struct Resource {
    pub encoded: Vec<u8>,
}

} // verus!
