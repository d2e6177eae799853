use governance_core::big_nat::BigNat;
use governance_core::types::{uuid_eq, uuid_from_u128, uuid_to_u128};

#[test]
fn zeros_at_the_significant_end_are_dropped() {
    assert_eq!(BigNat::from_digits(vec![1, 0, 0]).to_digits(), vec![1]);
    assert_eq!(BigNat::from_digits(vec![0, 0]).to_digits(), Vec::<u32>::new());
    assert_eq!(BigNat::from_digits(vec![0, 2]).to_digits(), vec![0, 2]);
    assert_eq!(BigNat::from_digits(vec![7, 0]), BigNat::from_digits(vec![7]));
    assert_eq!(BigNat::from_u64(0), BigNat::from_digits(vec![]));
}

#[test]
fn numbers_are_made_from_u64_and_read_back() {
    assert_eq!(BigNat::from_u64(4294967296).to_digits(), vec![0, 1]);
    assert_eq!(BigNat::from_u64(112_500_000_000).to_digits(), vec![830850304, 26]);
    assert_eq!(BigNat::from_u64(u64::MAX).to_u64(), Some(u64::MAX));
    assert_eq!(BigNat::from_u64(77).to_u64(), Some(77));
    assert_eq!(BigNat::from_digits(vec![0, 0, 1]).to_u64(), None);
    assert_eq!(BigNat::from_digits(vec![0, 1]).to_u64(), Some(4294967296));
}

#[test]
fn numbers_are_written_in_decimal() {
    assert_eq!(BigNat::from_digits(vec![]).to_decimal(), "0");
    assert_eq!(BigNat::from_u64(1125).to_decimal(), "1125");
    assert_eq!(BigNat::from_digits(vec![0, 0, 1]).to_decimal(), "18446744073709551616");
    assert_eq!(BigNat::from_u64(12).clone(), BigNat::from_u64(12));
}

#[test]
fn identifiers_are_numbers_most_significant_byte_first() {
    let mut id = [0u8; 16];
    id[15] = 1;
    assert_eq!(uuid_to_u128(&id), 1);
    id[0] = 1;
    assert_eq!(uuid_to_u128(&id), (1u128 << 120) + 1);
    assert_eq!(uuid_to_u128(&[255; 16]), u128::MAX);
    assert_eq!(uuid_to_u128(&[0; 16]), 0);
    assert_eq!(uuid_from_u128(258), [0, 0, 0, 0, 0, 0, 0, 0, 0, 0, 0, 0, 0, 0, 1, 2]);
    assert_eq!(uuid_from_u128(u128::MAX), [255; 16]);
    let value = 0x0102030405060708090a0b0c0d0e0f10u128;
    assert_eq!(uuid_from_u128(value), value.to_be_bytes());
    assert_eq!(uuid_to_u128(&value.to_be_bytes()), value);
    assert!(uuid_eq(&[3; 16], &[3; 16]));
    assert!(!uuid_eq(&[3; 16], &id));
}

#[test]
fn numbers_are_ordered_by_value() {
    let five = BigNat::from_u64(5);
    let two_to_32 = BigNat::from_digits(vec![0, 1]);
    let two_to_64 = BigNat::from_digits(vec![0, 0, 1]);
    assert!(five < two_to_32);
    assert!(two_to_32 < two_to_64);
    assert!(BigNat::from_u64(0) < five);
    assert!(BigNat::from_digits(vec![9, 1]) < BigNat::from_digits(vec![1, 2]));
    assert!(BigNat::from_digits(vec![1, 2]) < BigNat::from_digits(vec![2, 2]));
    assert!(BigNat::from_digits(vec![u32::MAX]) < BigNat::from_digits(vec![0, 1]));
    assert_eq!(
        BigNat::from_digits(vec![3, 0, 0]).cmp(&BigNat::from_u64(3)),
        std::cmp::Ordering::Equal
    );
    let mut numbers = vec![
        two_to_64.clone(),
        five.clone(),
        BigNat::from_u64(u64::MAX),
        two_to_32.clone(),
        BigNat::from_u64(6),
    ];
    numbers.sort();
    let values: Vec<Option<u64>> = numbers.iter().map(|n| n.to_u64()).collect();
    assert_eq!(values, vec![Some(5), Some(6), Some(4294967296), Some(u64::MAX), None]);
}
