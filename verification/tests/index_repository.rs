use governance_core::index_repository::{
    contains_id, index_key_of, range_bounds, IndexRepository, OperationTransferIndexRepository,
};
use governance_core::indexes::{
    OperationTransferIndex, OperationTransferIndexCriteria, Transfer, TransferRepository,
    TransferWalletIndex,
};

fn entry(transfer: u8, created_at: u64, id: u8) -> OperationTransferIndex {
    OperationTransferIndex {
        id: [id; 16],
        created_at,
        transfer_id: [transfer; 16],
    }
}

#[test]
fn test_repository_crud() {
    let mut repository = OperationTransferIndexRepository::default();
    let index = OperationTransferIndex {
        id: [0; 16],
        created_at: 10,
        transfer_id: [1; 16],
    };

    assert!(!repository.contains(&index));

    repository.insert(index.clone());

    assert!(repository.contains(&index));
    assert!(repository.remove(&index));
    assert!(!repository.contains(&index));
}

#[test]
fn test_find_by_criteria() {
    let mut repository = OperationTransferIndexRepository::default();
    let index = OperationTransferIndex {
        id: [0; 16],
        created_at: 10,
        transfer_id: [1; 16],
    };

    repository.insert(index.clone());

    let criteria = OperationTransferIndexCriteria {
        transfer_id: [1; 16],
        from_dt: None,
        to_dt: None,
    };

    let result = repository.find_by_criteria(criteria);

    assert_eq!(result.len(), 1);
    assert!(result.contains(&index.id));
}

#[test]
fn removing_what_was_never_inserted_changes_nothing() {
    let mut repository = OperationTransferIndexRepository::default();
    let kept = entry(1, 10, 1);
    let never = entry(1, 10, 2);
    repository.insert(kept.clone());
    assert!(!repository.remove(&never));
    assert!(repository.contains(&kept));
    assert!(!repository.contains(&never));
    assert!(repository.remove(&kept));
    assert!(!repository.remove(&kept));
}

#[test]
fn inserting_twice_keeps_one_entry() {
    let mut repository = OperationTransferIndexRepository::default();
    let index = entry(1, 10, 1);
    repository.insert(index.clone());
    repository.insert(index.clone());
    let found = repository.find_by_criteria(OperationTransferIndexCriteria {
        transfer_id: [1; 16],
        from_dt: None,
        to_dt: None,
    });
    assert_eq!(found, vec![[1u8; 16]]);
    assert!(repository.remove(&index));
    assert!(!repository.contains(&index));
}

#[test]
fn range_query_returns_exactly_what_lies_in_the_interval() {
    let mut repository = OperationTransferIndexRepository::default();
    repository.insert(entry(7, 5, 1));
    repository.insert(entry(7, 10, 2));
    repository.insert(entry(7, 15, 3));
    repository.insert(entry(8, 10, 4));
    repository.insert(entry(6, 10, 5));

    let found = repository.find_by_criteria(OperationTransferIndexCriteria {
        transfer_id: [7; 16],
        from_dt: Some(8),
        to_dt: Some(12),
    });
    assert_eq!(found, vec![[2u8; 16]]);
}

#[test]
fn range_query_without_bounds_returns_all_of_the_group() {
    let mut repository = OperationTransferIndexRepository::default();
    repository.insert(entry(7, 5, 1));
    repository.insert(entry(7, 20, 2));
    repository.insert(entry(9, 20, 3));

    let mut found = repository.find_by_criteria(OperationTransferIndexCriteria {
        transfer_id: [7; 16],
        from_dt: None,
        to_dt: None,
    });
    found.sort();
    assert_eq!(found, vec![[1u8; 16], [2u8; 16]]);
}

#[test]
fn range_query_includes_both_ends_and_the_extreme_values() {
    let mut repository = OperationTransferIndexRepository::default();
    repository.insert(entry(7, 0, 0));
    repository.insert(entry(7, 8, 1));
    repository.insert(entry(7, 12, 2));
    repository.insert(entry(7, u64::MAX, 255));

    let mut found = repository.find_by_criteria(OperationTransferIndexCriteria {
        transfer_id: [7; 16],
        from_dt: Some(8),
        to_dt: Some(12),
    });
    found.sort();
    assert_eq!(found, vec![[1u8; 16], [2u8; 16]]);

    let mut all = repository.find_by_criteria(OperationTransferIndexCriteria {
        transfer_id: [7; 16],
        from_dt: None,
        to_dt: None,
    });
    all.sort();
    assert_eq!(all, vec![[0u8; 16], [1u8; 16], [2u8; 16], [255u8; 16]]);

    let from_only = repository.find_by_criteria(OperationTransferIndexCriteria {
        transfer_id: [7; 16],
        from_dt: Some(13),
        to_dt: None,
    });
    assert_eq!(from_only, vec![[255u8; 16]]);
}

#[test]
fn range_query_with_inverted_bounds_is_empty() {
    let mut repository = OperationTransferIndexRepository::default();
    repository.insert(entry(7, 10, 1));
    let found = repository.find_by_criteria(OperationTransferIndexCriteria {
        transfer_id: [7; 16],
        from_dt: Some(12),
        to_dt: Some(8),
    });
    assert!(found.is_empty());
}

#[test]
fn range_query_gives_each_id_once() {
    let mut repository = OperationTransferIndexRepository::default();
    repository.insert(entry(7, 5, 1));
    repository.insert(entry(7, 6, 1));
    repository.insert(entry(7, 7, 2));
    let mut found = repository.find_by_criteria(OperationTransferIndexCriteria {
        transfer_id: [7; 16],
        from_dt: None,
        to_dt: None,
    });
    found.sort();
    assert_eq!(found, vec![[1u8; 16], [2u8; 16]]);
}

#[test]
fn many_entries_are_found_again() {
    let mut repository = OperationTransferIndexRepository::default();
    for i in 0..200u64 {
        let mut id = [0u8; 16];
        id[15] = i as u8;
        repository.insert(OperationTransferIndex {
            id,
            created_at: i,
            transfer_id: [3; 16],
        });
    }
    let found = repository.find_by_criteria(OperationTransferIndexCriteria {
        transfer_id: [3; 16],
        from_dt: Some(50),
        to_dt: Some(149),
    });
    assert_eq!(found.len(), 100);
    for i in 50..150u8 {
        let mut id = [0u8; 16];
        id[15] = i;
        assert!(contains_id(&found, &id));
    }
}

#[test]
fn bound_keys_pad_the_entity_id() {
    let criteria = OperationTransferIndexCriteria {
        transfer_id: [1; 16],
        from_dt: Some(3),
        to_dt: None,
    };
    let (start, end) = range_bounds(&criteria);
    assert_eq!(start, entry(1, 3, 0));
    assert_eq!(end, entry(1, u64::MAX, 255));
    let unset = OperationTransferIndexCriteria {
        transfer_id: [1; 16],
        from_dt: None,
        to_dt: Some(9),
    };
    let (start, end) = range_bounds(&unset);
    assert_eq!(start, entry(1, 0, 0));
    assert_eq!(end, entry(1, 9, 255));
}

#[test]
fn compound_key_reads_identifiers_most_significant_byte_first() {
    let mut id = [0u8; 16];
    id[15] = 2;
    id[14] = 1;
    let key = index_key_of(&OperationTransferIndex {
        transfer_id: [255; 16],
        created_at: 77,
        id,
    });
    assert_eq!(key, (u128::MAX, 77, 258));
}

#[test]
fn transfer_is_indexed_by_its_source_wallet_and_found_again() {
    let transfer = Transfer {
        id: [4; 16],
        from_wallet: [9; 16],
        to_address: "0x1234".to_string(),
        created_timestamp: 42,
        last_modification_timestamp: 43,
    };
    let index = transfer.to_index_by_wallet();
    assert_eq!(
        index,
        TransferWalletIndex {
            wallet_id: [9; 16],
            created_timestamp: 42,
            transfer_id: [4; 16],
        }
    );
    let mut transfers = TransferRepository::new();
    assert_eq!(transfers.get(&Transfer::key([4; 16])), None);
    assert_eq!(transfers.insert(Transfer::key(transfer.id), transfer.clone()), None);
    assert_eq!(index.to_transfer(&transfers), &transfer);
    let mut later = transfer.clone();
    later.last_modification_timestamp = 50;
    assert_eq!(
        transfers.insert(Transfer::key(later.id), later.clone()),
        Some(transfer)
    );
    assert_eq!(index.to_transfer(&transfers), &later);
}

#[test]
fn default_criteria_interval_is_seven_days() {
    assert_eq!(
        TransferWalletIndex::DEFAULT_CRITERIA_INTERVAL_NS,
        604_800_000_000_000
    );
}
