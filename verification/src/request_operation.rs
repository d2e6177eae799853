//! The catalog of request operations: the closed set of governable actions,
//! each with the input that the requester gave and the fields that exist
//! only once the operation has been carried out.

use crate::access::{contains_identity, identity_listed};
use crate::big_nat::BigNat;
use crate::identity::Identity;
use crate::models::{
    AccountId, AddressBookEntryId, Allow, AuthScope, Blockchain, BlockchainStandard,
    ChangeMetadata, Metadata, MetadataItem, RequestPolicyRule, RequestPolicyRuleInput,
    RequestSpecifier, Resource, UserGroupId, UserId, UserStatus,
};
use crate::types::UUID;
use vstd::prelude::*;
use vstd::string::StringExecFns;

verus! {

#[derive(Clone, Debug, PartialEq, Eq, Hash, PartialOrd, Ord)]
pub enum RequestOperation {
    Transfer(TransferOperation),
    AddAccount(AddAccountOperation),
    EditAccount(EditAccountOperation),
    AddAddressBookEntry(AddAddressBookEntryOperation),
    EditAddressBookEntry(EditAddressBookEntryOperation),
    RemoveAddressBookEntry(RemoveAddressBookEntryOperation),
    AddUser(AddUserOperation),
    EditUser(EditUserOperation),
    EditPermission(EditPermissionOperation),
    AddUserGroup(AddUserGroupOperation),
    EditUserGroup(EditUserGroupOperation),
    RemoveUserGroup(RemoveUserGroupOperation),
    ChangeCanister(ChangeCanisterOperation),
    ChangeExternalCanister(ChangeExternalCanisterOperation),
    CreateExternalCanister(CreateExternalCanisterOperation),
    CallExternalCanister(CallExternalCanisterOperation),
    AddRequestPolicy(AddRequestPolicyOperation),
    EditRequestPolicy(EditRequestPolicyOperation),
    RemoveRequestPolicy(RemoveRequestPolicyOperation),
    ManageSystemInfo(ManageSystemInfoOperation),
}

impl RequestOperation {
    /// The place of the variant in the catalog, counted from zero.
    pub open spec fn variant_index(&self) -> nat {
        match self {
            RequestOperation::Transfer(_) => 0,
            RequestOperation::AddAccount(_) => 1,
            RequestOperation::EditAccount(_) => 2,
            RequestOperation::AddAddressBookEntry(_) => 3,
            RequestOperation::EditAddressBookEntry(_) => 4,
            RequestOperation::RemoveAddressBookEntry(_) => 5,
            RequestOperation::AddUser(_) => 6,
            RequestOperation::EditUser(_) => 7,
            RequestOperation::EditPermission(_) => 8,
            RequestOperation::AddUserGroup(_) => 9,
            RequestOperation::EditUserGroup(_) => 10,
            RequestOperation::RemoveUserGroup(_) => 11,
            RequestOperation::ChangeCanister(_) => 12,
            RequestOperation::ChangeExternalCanister(_) => 13,
            RequestOperation::CreateExternalCanister(_) => 14,
            RequestOperation::CallExternalCanister(_) => 15,
            RequestOperation::AddRequestPolicy(_) => 16,
            RequestOperation::EditRequestPolicy(_) => 17,
            RequestOperation::RemoveRequestPolicy(_) => 18,
            RequestOperation::ManageSystemInfo(_) => 19,
        }
    }

    /// The name of the variant: lower case with underscores. It is written
    /// into stored history and policy specifiers, so it never changes.
    pub open spec fn discriminator(&self) -> Seq<char> {
        match self {
            RequestOperation::Transfer(_) => "transfer"@,
            RequestOperation::AddAccount(_) => "add_account"@,
            RequestOperation::EditAccount(_) => "edit_account"@,
            RequestOperation::AddAddressBookEntry(_) => "add_address_book_entry"@,
            RequestOperation::EditAddressBookEntry(_) => "edit_address_book_entry"@,
            RequestOperation::RemoveAddressBookEntry(_) => "remove_address_book_entry"@,
            RequestOperation::AddUser(_) => "add_user"@,
            RequestOperation::EditUser(_) => "edit_user"@,
            RequestOperation::EditPermission(_) => "edit_permission"@,
            RequestOperation::AddUserGroup(_) => "add_user_group"@,
            RequestOperation::EditUserGroup(_) => "edit_user_group"@,
            RequestOperation::RemoveUserGroup(_) => "remove_user_group"@,
            RequestOperation::ChangeCanister(_) => "change_canister"@,
            RequestOperation::ChangeExternalCanister(_) => "change_external_canister"@,
            RequestOperation::CreateExternalCanister(_) => "create_external_canister"@,
            RequestOperation::CallExternalCanister(_) => "call_external_canister"@,
            RequestOperation::AddRequestPolicy(_) => "add_request_policy"@,
            RequestOperation::EditRequestPolicy(_) => "edit_request_policy"@,
            RequestOperation::RemoveRequestPolicy(_) => "remove_request_policy"@,
            RequestOperation::ManageSystemInfo(_) => "manage_system_info"@,
        }
    }

    /// The name of the variant, for display, routing and audit.
    pub fn to_string(&self) -> (name: String)
        ensures
            name@ == self.discriminator(),
    {
        match self {
            RequestOperation::Transfer(_) => String::from_str("transfer"),
            RequestOperation::AddAccount(_) => String::from_str("add_account"),
            RequestOperation::EditAccount(_) => String::from_str("edit_account"),
            RequestOperation::AddAddressBookEntry(_) => String::from_str("add_address_book_entry"),
            RequestOperation::EditAddressBookEntry(_) => String::from_str(
                "edit_address_book_entry",
            ),
            RequestOperation::RemoveAddressBookEntry(_) => String::from_str(
                "remove_address_book_entry",
            ),
            RequestOperation::AddUser(_) => String::from_str("add_user"),
            RequestOperation::EditUser(_) => String::from_str("edit_user"),
            RequestOperation::EditPermission(_) => String::from_str("edit_permission"),
            RequestOperation::AddUserGroup(_) => String::from_str("add_user_group"),
            RequestOperation::EditUserGroup(_) => String::from_str("edit_user_group"),
            RequestOperation::RemoveUserGroup(_) => String::from_str("remove_user_group"),
            RequestOperation::ChangeCanister(_) => String::from_str("change_canister"),
            RequestOperation::ChangeExternalCanister(_) => String::from_str(
                "change_external_canister",
            ),
            RequestOperation::CreateExternalCanister(_) => String::from_str(
                "create_external_canister",
            ),
            RequestOperation::CallExternalCanister(_) => String::from_str("call_external_canister"),
            RequestOperation::AddRequestPolicy(_) => String::from_str("add_request_policy"),
            RequestOperation::EditRequestPolicy(_) => String::from_str("edit_request_policy"),
            RequestOperation::RemoveRequestPolicy(_) => String::from_str("remove_request_policy"),
            RequestOperation::ManageSystemInfo(_) => String::from_str("manage_system_info"),
        }
    }
}

/// The length of a variant's name with its first, second and sixth
/// characters, which together tell every name from every other.
pub open spec fn name_shape(index: nat) -> (nat, char, char, char) {
    if index == 0 {
        (8, 't', 'r', 'f')
    } else if index == 1 {
        (11, 'a', 'd', 'c')
    } else if index == 2 {
        (12, 'e', 'd', 'a')
    } else if index == 3 {
        (22, 'a', 'd', 'd')
    } else if index == 4 {
        (23, 'e', 'd', 'a')
    } else if index == 5 {
        (25, 'r', 'e', 'e')
    } else if index == 6 {
        (8, 'a', 'd', 's')
    } else if index == 7 {
        (9, 'e', 'd', 'u')
    } else if index == 8 {
        (15, 'e', 'd', 'p')
    } else if index == 9 {
        (14, 'a', 'd', 's')
    } else if index == 10 {
        (15, 'e', 'd', 'u')
    } else if index == 11 {
        (17, 'r', 'e', 'e')
    } else if index == 12 {
        (15, 'c', 'h', 'e')
    } else if index == 13 {
        (24, 'c', 'h', 'e')
    } else if index == 14 {
        (24, 'c', 'r', 'e')
    } else if index == 15 {
        (22, 'c', 'a', 'e')
    } else if index == 16 {
        (18, 'a', 'd', 'e')
    } else if index == 17 {
        (19, 'e', 'd', 'r')
    } else if index == 18 {
        (21, 'r', 'e', 'e')
    } else {
        (18, 'm', 'a', 'e')
    }
}

/// The name of each variant has the length and the characters that
/// `name_shape` gives for it.
pub proof fn lemma_discriminator_shape(operation: RequestOperation)
    ensures
        operation.variant_index() < 20,
        name_shape(operation.variant_index()) == (
            operation.discriminator().len(),
            operation.discriminator()[0],
            operation.discriminator()[1],
            operation.discriminator()[5],
        ),
{
    reveal_strlit("transfer");
    reveal_strlit("add_account");
    reveal_strlit("edit_account");
    reveal_strlit("add_address_book_entry");
    reveal_strlit("edit_address_book_entry");
    reveal_strlit("remove_address_book_entry");
    reveal_strlit("add_user");
    reveal_strlit("edit_user");
    reveal_strlit("edit_permission");
    reveal_strlit("add_user_group");
    reveal_strlit("edit_user_group");
    reveal_strlit("remove_user_group");
    reveal_strlit("change_canister");
    reveal_strlit("change_external_canister");
    reveal_strlit("create_external_canister");
    reveal_strlit("call_external_canister");
    reveal_strlit("add_request_policy");
    reveal_strlit("edit_request_policy");
    reveal_strlit("remove_request_policy");
    reveal_strlit("manage_system_info");
}

/// Whether the character is a lower-case letter or an underscore.
pub open spec fn is_name_char(c: char) -> bool {
    c == '_' || 'a' <= c <= 'z'
}

/// Whether the text is made of lower-case letters and underscores alone.
pub open spec fn is_snake_case(text: Seq<char>) -> bool {
    forall|i: int| 0 <= i < text.len() ==> is_name_char(#[trigger] text[i])
}

/// The name of every variant is made of lower-case letters and underscores
/// alone.
pub proof fn lemma_discriminator_is_snake_case(operation: RequestOperation)
    ensures
        is_snake_case(operation.discriminator()),
{
    reveal_strlit("transfer");
    reveal_strlit("add_account");
    reveal_strlit("edit_account");
    reveal_strlit("add_address_book_entry");
    reveal_strlit("edit_address_book_entry");
    reveal_strlit("remove_address_book_entry");
    reveal_strlit("add_user");
    reveal_strlit("edit_user");
    reveal_strlit("edit_permission");
    reveal_strlit("add_user_group");
    reveal_strlit("edit_user_group");
    reveal_strlit("remove_user_group");
    reveal_strlit("change_canister");
    reveal_strlit("change_external_canister");
    reveal_strlit("create_external_canister");
    reveal_strlit("call_external_canister");
    reveal_strlit("add_request_policy");
    reveal_strlit("edit_request_policy");
    reveal_strlit("remove_request_policy");
    reveal_strlit("manage_system_info");
    let name = operation.discriminator();
    assert forall|i: int| 0 <= i < name.len() implies is_name_char(#[trigger] name[i]) by {}
}

/// Every variant has exactly one name, and no two variants share one: two
/// operations have the same name exactly when they are of the same variant.
pub proof fn lemma_discriminators_distinct(a: RequestOperation, b: RequestOperation)
    ensures
        a.discriminator() == b.discriminator() <==> a.variant_index() == b.variant_index(),
{
    lemma_discriminator_shape(a);
    lemma_discriminator_shape(b);
}

/// Fills a field that exists only once its operation has been carried out.
/// Such a field goes from absent to present once and is never reset: where
/// the field is present already, nothing changes and the answer is `false`.
pub fn fill_once<T>(field: &mut Option<T>, value: T) -> (filled: bool)
    ensures
        filled == (*old(field) is None),
        filled ==> *final(field) == Some(value),
        !filled ==> *final(field) == *old(field),
{
    if field.is_none() {
        *field = Some(value);
        true
    } else {
        false
    }
}

#[derive(Clone, Debug, PartialEq, Eq, Hash, PartialOrd, Ord)]
pub struct TransferOperation {
    pub transfer_id: Option<UUID>,
    pub input: TransferOperationInput,
}

#[derive(Clone, Debug, PartialEq, Eq, Hash, PartialOrd, Ord)]
pub struct TransferOperationInput {
    pub from_account_id: AccountId,
    pub to: String,
    pub amount: BigNat,
    pub metadata: Metadata,
    pub network: String,
    pub fee: Option<BigNat>,
}

#[derive(Clone, Debug, PartialEq, Eq, Hash, PartialOrd, Ord)]
pub struct AddAccountOperation {
    /// The account id is only available after the operation is executed.
    pub account_id: Option<AccountId>,
    pub input: AddAccountOperationInput,
}

#[derive(Clone, Debug, PartialEq, Eq, Hash, PartialOrd, Ord)]
pub struct AddAccountOperationInput {
    pub name: String,
    pub blockchain: Blockchain,
    pub standard: BlockchainStandard,
    pub metadata: Metadata,
    pub read_permission: Allow,
    pub configs_permission: Allow,
    pub transfer_permission: Allow,
    pub configs_request_policy: Option<RequestPolicyRule>,
    pub transfer_request_policy: Option<RequestPolicyRule>,
}

#[derive(Clone, Debug, PartialEq, Eq, Hash, PartialOrd, Ord)]
pub struct EditAccountOperation {
    pub input: EditAccountOperationInput,
}

/// In an edit, a field that is absent leaves what it names unchanged; it
/// does not set it to empty.
#[derive(Clone, Debug, PartialEq, Eq, Hash, PartialOrd, Ord)]
pub struct EditAccountOperationInput {
    pub account_id: AccountId,
    pub name: Option<String>,
    pub read_permission: Option<Allow>,
    pub configs_permission: Option<Allow>,
    pub transfer_permission: Option<Allow>,
    pub configs_request_policy: Option<RequestPolicyRuleInput>,
    pub transfer_request_policy: Option<RequestPolicyRuleInput>,
}

#[derive(Clone, Debug, PartialEq, Eq, Hash, PartialOrd, Ord)]
pub struct AddAddressBookEntryOperation {
    /// The address book entry id is only available after the operation is executed.
    pub address_book_entry_id: Option<AddressBookEntryId>,
    pub input: AddAddressBookEntryOperationInput,
}

#[derive(Clone, Debug, PartialEq, Eq, Hash, PartialOrd, Ord)]
pub struct AddAddressBookEntryOperationInput {
    pub address_owner: String,
    pub address: String,
    pub blockchain: Blockchain,
    pub standard: BlockchainStandard,
    pub metadata: Vec<MetadataItem>,
}

#[derive(Clone, Debug, PartialEq, Eq, Hash, PartialOrd, Ord)]
pub struct EditAddressBookEntryOperation {
    pub input: EditAddressBookEntryOperationInput,
}

#[derive(Clone, Debug, PartialEq, Eq, Hash, PartialOrd, Ord)]
pub struct EditAddressBookEntryOperationInput {
    pub address_book_entry_id: AddressBookEntryId,
    pub address_owner: Option<String>,
    pub change_metadata: Option<ChangeMetadata>,
}

#[derive(Clone, Debug, PartialEq, Eq, Hash, PartialOrd, Ord)]
pub struct RemoveAddressBookEntryOperation {
    pub input: RemoveAddressBookEntryOperationInput,
}

#[derive(Clone, Debug, PartialEq, Eq, Hash, PartialOrd, Ord)]
pub struct RemoveAddressBookEntryOperationInput {
    pub address_book_entry_id: AddressBookEntryId,
}

#[derive(Clone, Debug, PartialEq, Eq, Hash, PartialOrd, Ord)]
pub struct AddUserOperation {
    pub user_id: Option<UUID>,
    pub input: AddUserOperationInput,
}

#[derive(Clone, Debug, PartialEq, Eq, Hash, PartialOrd, Ord)]
pub struct AddUserOperationInput {
    pub name: String,
    pub identities: Vec<Identity>,
    pub groups: Vec<UUID>,
    pub status: UserStatus,
}

#[derive(Clone, Debug, PartialEq, Eq, Hash, PartialOrd, Ord)]
pub struct EditUserOperation {
    pub input: EditUserOperationInput,
}

#[derive(Clone, Debug, PartialEq, Eq, Hash, PartialOrd, Ord)]
pub struct EditUserOperationInput {
    pub user_id: UUID,
    pub name: Option<String>,
    pub identities: Option<Vec<Identity>>,
    pub groups: Option<Vec<UUID>>,
    pub status: Option<UserStatus>,
}

#[derive(Clone, Debug, PartialEq, Eq, Hash, PartialOrd, Ord)]
pub struct AddUserGroupOperation {
    pub user_group_id: Option<UUID>,
    pub input: AddUserGroupOperationInput,
}

#[derive(Clone, Debug, PartialEq, Eq, Hash, PartialOrd, Ord)]
pub struct AddUserGroupOperationInput {
    pub name: String,
}

#[derive(Clone, Debug, PartialEq, Eq, Hash, PartialOrd, Ord)]
pub struct EditUserGroupOperation {
    pub input: EditUserGroupOperationInput,
}

#[derive(Clone, Debug, PartialEq, Eq, Hash, PartialOrd, Ord)]
pub struct EditUserGroupOperationInput {
    pub user_group_id: UUID,
    pub name: String,
}

#[derive(Clone, Debug, PartialEq, Eq, Hash, PartialOrd, Ord)]
pub struct RemoveUserGroupOperation {
    pub input: RemoveUserGroupOperationInput,
}

#[derive(Clone, Debug, PartialEq, Eq, Hash, PartialOrd, Ord)]
pub struct RemoveUserGroupOperationInput {
    pub user_group_id: UUID,
}

#[derive(Debug, Clone, PartialEq, Eq, Hash, PartialOrd, Ord)]
pub enum ChangeCanisterTarget {
    UpgradeStation,
    UpgradeUpgrader,
}

#[derive(Clone, Debug, PartialEq, Eq, Hash, PartialOrd, Ord)]
pub struct ChangeCanisterOperationInput {
    pub target: ChangeCanisterTarget,
    pub module: Vec<u8>,
    pub arg: Option<Vec<u8>>,
}

/// The checksums are computed once, when the operation is created, so that
/// approvers can check the payloads without receiving them again.
#[derive(Clone, Debug, PartialEq, Eq, Hash, PartialOrd, Ord)]
pub struct ChangeCanisterOperation {
    pub module_checksum: Vec<u8>,
    pub arg_checksum: Option<Vec<u8>>,
    pub input: ChangeCanisterOperationInput,
}

#[derive(Clone, Debug, PartialEq, Eq, Hash, PartialOrd, Ord)]
pub struct CanisterInstallModeArgs {}

#[derive(Clone, Debug, PartialEq, Eq, Hash, PartialOrd, Ord)]
pub struct CanisterReinstallModeArgs {}

#[derive(Clone, Debug, PartialEq, Eq, Hash, PartialOrd, Ord)]
pub struct CanisterUpgradeModeArgs {}

#[derive(Clone, Debug, PartialEq, Eq, Hash, PartialOrd, Ord)]
pub enum CanisterInstallMode {
    Install(CanisterInstallModeArgs),
    Reinstall(CanisterReinstallModeArgs),
    Upgrade(CanisterUpgradeModeArgs),
}

#[derive(Clone, Debug, PartialEq, Eq, Hash, PartialOrd, Ord)]
pub struct ChangeExternalCanisterOperationInput {
    pub canister_id: Identity,
    pub mode: CanisterInstallMode,
    pub module: Vec<u8>,
    pub arg: Option<Vec<u8>>,
}

#[derive(Clone, Debug, PartialEq, Eq, Hash, PartialOrd, Ord)]
pub struct ChangeExternalCanisterOperation {
    pub module_checksum: Vec<u8>,
    pub arg_checksum: Option<Vec<u8>>,
    pub input: ChangeExternalCanisterOperationInput,
}

#[derive(Clone, Debug, PartialEq, Eq, Hash, PartialOrd, Ord)]
pub struct CreateExternalCanisterOperationInput {}

#[derive(Clone, Debug, PartialEq, Eq, Hash, PartialOrd, Ord)]
pub struct CreateExternalCanisterOperation {
    pub canister_id: Option<Identity>,
}

/// Why the input of an operation is refused before the operation exists.
/// This is about the integrity of the data, not about who may ask.
#[derive(Clone, Debug, PartialEq, Eq)]
pub enum ValidationError {
    /// The canister is not registered as an external canister.
    InvalidExternalCanister { principal: Identity },
}

#[derive(Clone, Debug, PartialEq, Eq, Hash, PartialOrd, Ord)]
pub struct CanisterMethod {
    pub canister_id: Identity,
    pub method_name: String,
}

impl CanisterMethod {
    /// Validates the method: its canister must be one of the registered
    /// external canisters.
    pub fn validate(&self, external_canisters: &Vec<Identity>) -> (verdict: Result<
        (),
        ValidationError,
    >)
        ensures
            verdict is Ok <==> identity_listed(external_canisters@, self.canister_id@),
            verdict matches Err(ValidationError::InvalidExternalCanister { principal })
                ==> principal == self.canister_id,
    {
        if contains_identity(external_canisters, &self.canister_id) {
            Ok(())
        } else {
            Err(ValidationError::InvalidExternalCanister { principal: self.canister_id })
        }
    }
}

#[derive(Clone, Debug, PartialEq, Eq, Hash, PartialOrd, Ord)]
pub struct CallExternalCanisterOperationInput {
    pub validation_method: Option<CanisterMethod>,
    pub execution_method: CanisterMethod,
    pub arg: Option<Vec<u8>>,
    pub execution_method_cycles: Option<u64>,
}

#[derive(Clone, Debug, PartialEq, Eq, Hash, PartialOrd, Ord)]
pub struct CallExternalCanisterOperation {
    pub input: CallExternalCanisterOperationInput,
    pub arg_checksum: Option<Vec<u8>>,
    pub arg_rendering: Option<String>,
    pub execution_method_reply: Option<Vec<u8>>,
}

#[derive(Clone, Debug, PartialEq, Eq, Hash, PartialOrd, Ord)]
pub struct EditPermissionOperationInput {
    pub resource: Resource,
    pub auth_scope: Option<AuthScope>,
    pub users: Option<Vec<UserId>>,
    pub user_groups: Option<Vec<UserGroupId>>,
}

#[derive(Clone, Debug, PartialEq, Eq, Hash, PartialOrd, Ord)]
pub struct EditPermissionOperation {
    pub input: EditPermissionOperationInput,
}

#[derive(Clone, Debug, PartialEq, Eq, Hash, PartialOrd, Ord)]
pub struct AddRequestPolicyOperationInput {
    pub specifier: RequestSpecifier,
    pub rule: RequestPolicyRule,
}

#[derive(Clone, Debug, PartialEq, Eq, Hash, PartialOrd, Ord)]
pub struct AddRequestPolicyOperation {
    pub policy_id: Option<UUID>,
    pub input: AddRequestPolicyOperationInput,
}

#[derive(Clone, Debug, PartialEq, Eq, Hash, PartialOrd, Ord)]
pub struct EditRequestPolicyOperationInput {
    pub policy_id: UUID,
    pub specifier: Option<RequestSpecifier>,
    pub rule: Option<RequestPolicyRule>,
}

#[derive(Clone, Debug, PartialEq, Eq, Hash, PartialOrd, Ord)]
pub struct EditRequestPolicyOperation {
    pub input: EditRequestPolicyOperationInput,
}

#[derive(Clone, Debug, PartialEq, Eq, Hash, PartialOrd, Ord)]
pub struct RemoveRequestPolicyOperationInput {
    pub policy_id: UUID,
}

#[derive(Clone, Debug, PartialEq, Eq, Hash, PartialOrd, Ord)]
pub struct RemoveRequestPolicyOperation {
    pub input: RemoveRequestPolicyOperationInput,
}

#[derive(Clone, Debug, PartialEq, Eq, Hash, PartialOrd, Ord)]
pub struct ManageSystemInfoOperationInput {
    pub name: Option<String>,
}

#[derive(Clone, Debug, PartialEq, Eq, Hash, PartialOrd, Ord)]
pub struct ManageSystemInfoOperation {
    pub input: ManageSystemInfoOperationInput,
}

} // verus!
