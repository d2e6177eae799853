use ic_cdk::api::management_canister::main::CanisterInstallMode as HostInstallMode;
use governance_core::account_bank::{AccountBank, AccountBankValidator, AccountError};
use governance_core::big_nat::BigNat;
use governance_core::identity::Identity;
use governance_core::models::{
    Allow, AuthScope, Blockchain, BlockchainStandard, ChangeMetadata, Metadata, MetadataItem,
    RequestPolicyRule, RequestPolicyRuleInput, RequestSpecifier, Resource, UserStatus,
};
use governance_core::request_operation::{
    fill_once,
    AddAccountOperation, AddAccountOperationInput, AddAddressBookEntryOperation,
    AddAddressBookEntryOperationInput, AddRequestPolicyOperation, AddRequestPolicyOperationInput,
    AddUserGroupOperation, AddUserGroupOperationInput, AddUserOperation, AddUserOperationInput,
    CallExternalCanisterOperation, CallExternalCanisterOperationInput, CanisterInstallMode,
    CanisterInstallModeArgs, CanisterMethod, CanisterReinstallModeArgs, CanisterUpgradeModeArgs,
    ChangeCanisterOperation, ChangeCanisterOperationInput, ChangeCanisterTarget,
    ChangeExternalCanisterOperation, ChangeExternalCanisterOperationInput,
    CreateExternalCanisterOperation, CreateExternalCanisterOperationInput, EditAccountOperation,
    EditAccountOperationInput, EditAddressBookEntryOperation, EditAddressBookEntryOperationInput,
    EditPermissionOperation, EditPermissionOperationInput, EditRequestPolicyOperation,
    EditRequestPolicyOperationInput, EditUserGroupOperation, EditUserGroupOperationInput,
    EditUserOperation, EditUserOperationInput, ManageSystemInfoOperation,
    ManageSystemInfoOperationInput, RemoveAddressBookEntryOperation,
    RemoveAddressBookEntryOperationInput, RemoveRequestPolicyOperation,
    RemoveRequestPolicyOperationInput, RemoveUserGroupOperation, RemoveUserGroupOperationInput,
    RequestOperation, TransferOperation, TransferOperationInput, ValidationError,
};

fn allow() -> Allow {
    Allow {
        auth_scope: AuthScope::Restricted,
        users: vec![[1; 16]],
        user_groups: vec![],
    }
}

fn metadata() -> Metadata {
    Metadata {
        items: vec![MetadataItem {
            key: "memo".to_string(),
            value: "rent".to_string(),
        }],
    }
}

fn method(canister: &[u8]) -> CanisterMethod {
    CanisterMethod {
        canister_id: Identity::from_slice(canister),
        method_name: "run".to_string(),
    }
}

fn every_operation() -> Vec<RequestOperation> {
    vec![
        RequestOperation::Transfer(TransferOperation {
            transfer_id: None,
            input: TransferOperationInput {
                from_account_id: [1; 16],
                to: "0x1234".to_string(),
                amount: BigNat::from_u64(100),
                metadata: metadata(),
                network: "mainnet".to_string(),
                fee: None,
            },
        }),
        RequestOperation::AddAccount(AddAccountOperation {
            account_id: None,
            input: AddAccountOperationInput {
                name: "main".to_string(),
                blockchain: Blockchain::InternetComputer,
                standard: BlockchainStandard::Native,
                metadata: metadata(),
                read_permission: allow(),
                configs_permission: allow(),
                transfer_permission: allow(),
                configs_request_policy: None,
                transfer_request_policy: Some(RequestPolicyRule { encoded: vec![1] }),
            },
        }),
        RequestOperation::EditAccount(EditAccountOperation {
            input: EditAccountOperationInput {
                account_id: [1; 16],
                name: None,
                read_permission: None,
                configs_permission: None,
                transfer_permission: None,
                configs_request_policy: Some(RequestPolicyRuleInput::Remove),
                transfer_request_policy: Some(RequestPolicyRuleInput::Assign(RequestPolicyRule {
                    encoded: vec![2],
                })),
            },
        }),
        RequestOperation::AddAddressBookEntry(AddAddressBookEntryOperation {
            address_book_entry_id: None,
            input: AddAddressBookEntryOperationInput {
                address_owner: "alice".to_string(),
                address: "0x1234".to_string(),
                blockchain: Blockchain::Ethereum,
                standard: BlockchainStandard::ERC20,
                metadata: vec![],
            },
        }),
        RequestOperation::EditAddressBookEntry(EditAddressBookEntryOperation {
            input: EditAddressBookEntryOperationInput {
                address_book_entry_id: [2; 16],
                address_owner: Some(String::new()),
                change_metadata: Some(ChangeMetadata::RemoveKeys(vec!["memo".to_string()])),
            },
        }),
        RequestOperation::RemoveAddressBookEntry(RemoveAddressBookEntryOperation {
            input: RemoveAddressBookEntryOperationInput {
                address_book_entry_id: [2; 16],
            },
        }),
        RequestOperation::AddUser(AddUserOperation {
            user_id: None,
            input: AddUserOperationInput {
                name: "bob".to_string(),
                identities: vec![Identity::anonymous()],
                groups: vec![],
                status: UserStatus::Active,
            },
        }),
        RequestOperation::EditUser(EditUserOperation {
            input: EditUserOperationInput {
                user_id: [3; 16],
                name: None,
                identities: Some(vec![]),
                groups: None,
                status: Some(UserStatus::Inactive),
            },
        }),
        RequestOperation::EditPermission(EditPermissionOperation {
            input: EditPermissionOperationInput {
                resource: Resource { encoded: vec![3] },
                auth_scope: Some(AuthScope::Public),
                users: None,
                user_groups: Some(vec![]),
            },
        }),
        RequestOperation::AddUserGroup(AddUserGroupOperation {
            user_group_id: None,
            input: AddUserGroupOperationInput {
                name: "finance".to_string(),
            },
        }),
        RequestOperation::EditUserGroup(EditUserGroupOperation {
            input: EditUserGroupOperationInput {
                user_group_id: [4; 16],
                name: "treasury".to_string(),
            },
        }),
        RequestOperation::RemoveUserGroup(RemoveUserGroupOperation {
            input: RemoveUserGroupOperationInput {
                user_group_id: [4; 16],
            },
        }),
        RequestOperation::ChangeCanister(ChangeCanisterOperation {
            module_checksum: vec![9; 32],
            arg_checksum: None,
            input: ChangeCanisterOperationInput {
                target: ChangeCanisterTarget::UpgradeStation,
                module: vec![0, 97, 115, 109],
                arg: None,
            },
        }),
        RequestOperation::ChangeExternalCanister(ChangeExternalCanisterOperation {
            module_checksum: vec![9; 32],
            arg_checksum: Some(vec![8; 32]),
            input: ChangeExternalCanisterOperationInput {
                canister_id: Identity::from_slice(&[1, 1]),
                mode: CanisterInstallMode::Upgrade(CanisterUpgradeModeArgs {}),
                module: vec![0, 97, 115, 109],
                arg: Some(vec![]),
            },
        }),
        RequestOperation::CreateExternalCanister(CreateExternalCanisterOperation {
            canister_id: None,
        }),
        RequestOperation::CallExternalCanister(CallExternalCanisterOperation {
            input: CallExternalCanisterOperationInput {
                validation_method: None,
                execution_method: method(&[1, 1]),
                arg: None,
                execution_method_cycles: Some(1_000),
            },
            arg_checksum: None,
            arg_rendering: None,
            execution_method_reply: None,
        }),
        RequestOperation::AddRequestPolicy(AddRequestPolicyOperation {
            policy_id: None,
            input: AddRequestPolicyOperationInput {
                specifier: RequestSpecifier { encoded: vec![4] },
                rule: RequestPolicyRule { encoded: vec![5] },
            },
        }),
        RequestOperation::EditRequestPolicy(EditRequestPolicyOperation {
            input: EditRequestPolicyOperationInput {
                policy_id: [5; 16],
                specifier: None,
                rule: None,
            },
        }),
        RequestOperation::RemoveRequestPolicy(RemoveRequestPolicyOperation {
            input: RemoveRequestPolicyOperationInput { policy_id: [5; 16] },
        }),
        RequestOperation::ManageSystemInfo(ManageSystemInfoOperation {
            input: ManageSystemInfoOperationInput {
                name: Some("station".to_string()),
            },
        }),
    ]
}

#[test]
fn each_variant_has_its_stable_name() {
    let names: Vec<String> = every_operation().iter().map(|op| op.to_string()).collect();
    assert_eq!(
        names,
        vec![
            "transfer",
            "add_account",
            "edit_account",
            "add_address_book_entry",
            "edit_address_book_entry",
            "remove_address_book_entry",
            "add_user",
            "edit_user",
            "edit_permission",
            "add_user_group",
            "edit_user_group",
            "remove_user_group",
            "change_canister",
            "change_external_canister",
            "create_external_canister",
            "call_external_canister",
            "add_request_policy",
            "edit_request_policy",
            "remove_request_policy",
            "manage_system_info",
        ]
    );
}

#[test]
fn edit_of_a_user_group_prints_its_own_name() {
    let operation = RequestOperation::EditUserGroup(EditUserGroupOperation {
        input: EditUserGroupOperationInput {
            user_group_id: [0; 16],
            name: "finance".to_string(),
        },
    });
    assert_eq!(operation.to_string(), "edit_user_group");
}

#[test]
fn no_two_variants_share_a_name() {
    let names: Vec<String> = every_operation().iter().map(|op| op.to_string()).collect();
    for (i, a) in names.iter().enumerate() {
        for (j, b) in names.iter().enumerate() {
            assert_eq!(a == b, i == j);
        }
        assert!(a.chars().all(|c| c == '_' || c.is_ascii_lowercase()));
    }
}

#[test]
fn name_does_not_depend_on_what_the_operation_carries() {
    let pending = RequestOperation::CreateExternalCanister(CreateExternalCanisterOperation {
        canister_id: None,
    });
    let executed = RequestOperation::CreateExternalCanister(CreateExternalCanisterOperation {
        canister_id: Some(Identity::from_slice(&[1])),
    });
    assert_eq!(pending.to_string(), executed.to_string());
    assert_ne!(pending, executed);
}

#[test]
fn operations_are_totally_ordered_by_variant_then_content() {
    let operations = every_operation();
    for pair in operations.windows(2) {
        assert!(pair[0] < pair[1]);
    }
    let mut shuffled = operations.clone();
    shuffled.reverse();
    shuffled.sort();
    assert_eq!(shuffled, operations);
    let absent = EditUserGroupOperationInput {
        user_group_id: [1; 16],
        name: String::new(),
    };
    let present = EditUserGroupOperationInput {
        user_group_id: [1; 16],
        name: "a".to_string(),
    };
    assert!(absent < present);
}

#[test]
fn result_of_an_execution_is_filled_in_once() {
    let mut operation = AddUserGroupOperation {
        user_group_id: None,
        input: AddUserGroupOperationInput {
            name: "finance".to_string(),
        },
    };
    assert!(fill_once(&mut operation.user_group_id, [1; 16]));
    assert_eq!(operation.user_group_id, Some([1; 16]));
    assert!(!fill_once(&mut operation.user_group_id, [2; 16]));
    assert_eq!(operation.user_group_id, Some([1; 16]));
    assert_eq!(operation.input.name, "finance");
}

#[test]
fn transfers_are_ordered_by_the_value_of_their_amount() {
    let transfer = |amount: BigNat| {
        RequestOperation::Transfer(TransferOperation {
            transfer_id: None,
            input: TransferOperationInput {
                from_account_id: [1; 16],
                to: "0x1234".to_string(),
                amount,
                metadata: metadata(),
                network: "mainnet".to_string(),
                fee: None,
            },
        })
    };
    assert!(transfer(BigNat::from_u64(5)) < transfer(BigNat::from_digits(vec![0, 1])));
    assert!(transfer(BigNat::from_u64(99)) < transfer(BigNat::from_u64(100)));
}

#[test]
fn absent_and_empty_fields_of_an_edit_differ() {
    let unchanged = ManageSystemInfoOperationInput { name: None };
    let emptied = ManageSystemInfoOperationInput {
        name: Some(String::new()),
    };
    assert_ne!(unchanged, emptied);
    let keep = EditUserOperationInput {
        user_id: [1; 16],
        name: None,
        identities: None,
        groups: None,
        status: None,
    };
    let clear = EditUserOperationInput {
        user_id: [1; 16],
        name: None,
        identities: Some(vec![]),
        groups: Some(vec![]),
        status: None,
    };
    assert_ne!(keep, clear);
}

#[test]
fn method_of_a_registered_external_canister_is_valid() {
    let registered = vec![Identity::from_slice(&[1, 1]), Identity::from_slice(&[2, 2])];
    assert_eq!(method(&[2, 2]).validate(&registered), Ok(()));
    assert_eq!(
        method(&[3, 3]).validate(&registered),
        Err(ValidationError::InvalidExternalCanister {
            principal: Identity::from_slice(&[3, 3])
        })
    );
    assert_eq!(
        method(&[1, 1]).validate(&vec![]),
        Err(ValidationError::InvalidExternalCanister {
            principal: Identity::from_slice(&[1, 1])
        })
    );
}

#[test]
fn install_modes_map_to_those_of_the_management_canister() {
    assert_eq!(
        HostInstallMode::from(CanisterInstallMode::Install(CanisterInstallModeArgs {})),
        HostInstallMode::Install
    );
    assert_eq!(
        HostInstallMode::from(CanisterInstallMode::Reinstall(CanisterReinstallModeArgs {})),
        HostInstallMode::Reinstall
    );
    assert_eq!(
        HostInstallMode::from(CanisterInstallMode::Upgrade(CanisterUpgradeModeArgs {})),
        HostInstallMode::Upgrade(None)
    );
}

#[test]
fn install_modes_and_their_arguments_are_plain_values() {
    assert_ne!(
        CanisterInstallMode::Install(CanisterInstallModeArgs {}),
        CanisterInstallMode::Reinstall(CanisterReinstallModeArgs {})
    );
    assert!(
        CanisterInstallMode::Reinstall(CanisterReinstallModeArgs {})
            < CanisterInstallMode::Upgrade(CanisterUpgradeModeArgs {})
    );
    assert_eq!(
        CreateExternalCanisterOperationInput {},
        CreateExternalCanisterOperationInput {}
    );
    assert!(ChangeCanisterTarget::UpgradeStation < ChangeCanisterTarget::UpgradeUpgrader);
}

#[test]
fn bank_name_must_have_one_to_150_bytes() {
    let bank = |name: Option<String>| AccountBank {
        canister_id: Identity::anonymous(),
        name,
    };
    let refused = Err(AccountError::ValidationError {
        info: "Bank name length must be between 1 and 150".to_string(),
    });
    assert_eq!(bank(None).validate(), Ok(()));
    assert_eq!(bank(Some("a".to_string())).validate(), Ok(()));
    assert_eq!(bank(Some("a".repeat(150))).validate(), Ok(()));
    assert_eq!(bank(Some(String::new())).validate(), refused);
    assert_eq!(bank(Some("a".repeat(151))).validate(), refused);
    let model = bank(Some("a".repeat(151)));
    let validator = AccountBankValidator::new(&model);
    assert_eq!(validator.validate_name(), refused);
    assert_eq!(validator.validate(), refused);
    assert_eq!(AccountBankValidator::NAME_LEN_RANGE, (1, 150));
}

#[test]
fn bank_layout_leaves_spare_bytes() {
    assert_eq!(AccountBank::MAX_BYTE_SIZE_CANISTER_ID, 29);
    assert_eq!(AccountBank::MAX_BYTE_SIZE_NAME, 150);
    assert_eq!(AccountBank::MAX_BYTE_SIZE, 256);
    assert_eq!(AccountBank::SPARE_BYTES, 77);
}
