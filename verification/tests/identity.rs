use governance_core::identity::{Identity, MAX_IDENTITY_BYTES};

#[test]
fn text_of_an_identity_is_parsed_back() {
    let id = Identity::from_text("avqkn-guaaa-aaaaa-qaaea-cai").unwrap();
    assert_eq!(id.to_vec(), vec![128, 0, 0, 0, 0, 16, 0, 8, 1, 1]);
    assert_eq!(id.to_text(), "avqkn-guaaa-aaaaa-qaaea-cai");
    assert_eq!(id.len(), 10);
}

#[test]
fn anonymous_and_empty_identities_have_their_texts() {
    assert_eq!(Identity::anonymous().to_text(), "2vxsx-fae");
    assert_eq!(Identity::anonymous().to_vec(), vec![4u8]);
    assert_eq!(Identity::from_slice(&[]).to_text(), "aaaaa-aa");
    assert_eq!(Identity::from_text("aaaaa-aa").unwrap().to_vec(), Vec::<u8>::new());
    assert_eq!(Identity::from_text("2vxsx-fae"), Some(Identity::anonymous()));
}

#[test]
fn malformed_texts_are_no_identity() {
    assert_eq!(Identity::from_text(""), None);
    assert_eq!(Identity::from_text("not a principal"), None);
    assert_eq!(Identity::from_text("avqkn-guaaa-aaaaa-qaaea-caj"), None);
    assert_eq!(Identity::from_text("avqknguaaaaaaaaqaaeacai"), None);
}

#[test]
fn identities_hold_at_most_29_bytes() {
    assert_eq!(MAX_IDENTITY_BYTES, 29);
    assert!(Identity::try_from_slice(&[1; 29]).is_some());
    assert!(Identity::try_from_slice(&[1; 30]).is_none());
    assert_eq!(Identity::try_from_slice(&[1, 2]).unwrap().to_vec(), vec![1, 2]);
}

#[test]
fn identities_are_equal_by_their_bytes() {
    let a = Identity::from_slice(&[1, 2, 3]);
    let b = Identity::from_slice(&[1, 2, 3]);
    let c = Identity::from_slice(&[1, 2]);
    let d = Identity::from_slice(&[1, 2, 4]);
    let e = Identity::from_slice(&[1, 2, 0]);
    assert!(a.equals(&b));
    assert!(!a.equals(&c));
    assert!(!a.equals(&d));
    assert!(!c.equals(&e));
    assert_eq!(a, b);
    assert_ne!(c, e);
}
