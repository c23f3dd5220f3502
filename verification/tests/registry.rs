use aezos::errors::ErrorCode;
use aezos::mark::LightningMark;
use aezos::registry::derive_address;
use aezos::registry::MarkRegistry;

fn key(b: u8) -> [u8; 32] {
    [b; 32]
}

#[test]
fn derive_address_is_deterministic() {
    let a = derive_address(&key(1), &key(9));
    let b = derive_address(&key(1), &key(9));
    assert_eq!(a.accused, b.accused);
    assert_eq!(a.fingerprint, b.fingerprint);
    assert_eq!(a.accused, key(1));
    assert_eq!(a.fingerprint, key(9));
}

#[test]
fn new_registry_is_empty() {
    let r = MarkRegistry::new();
    assert!(!r.contains(&key(1), &key(9)));
}

#[test]
fn create_claims_the_derived_key() {
    let mut r = MarkRegistry::new();
    assert!(!r.contains(&key(1), &key(9)));
    r.create_lightning_mark(&key(1), 0, &key(9), String::new(), &key(2), 0)
        .unwrap();
    assert!(r.contains(&key(1), &key(9)));
    // other pairs stay free
    assert!(!r.contains(&key(1), &key(8)));
    assert!(!r.contains(&key(3), &key(9)));
}

#[test]
fn duplicate_create_fails_with_duplicate_record() {
    let mut r = MarkRegistry::new();
    let first = r.create_lightning_mark(&key(1), 2, &key(9), String::from("a"), &key(2), 10);
    assert!(first.is_ok());
    let second = r.create_lightning_mark(&key(1), 5, &key(9), String::from("b"), &key(4), 20);
    assert_eq!(second.unwrap_err(), ErrorCode::DuplicateRecord);
    // exactly one mark exists for the pair, whichever request came first
    assert!(r.contains(&key(1), &key(9)));
}

#[test]
fn duplicate_create_fails_regardless_of_order() {
    // the same two requests, arriving in the other order: again exactly one
    // succeeds and the loser observes DuplicateRecord
    let mut r = MarkRegistry::new();
    let first = r.create_lightning_mark(&key(1), 5, &key(9), String::from("b"), &key(4), 20);
    assert!(first.is_ok());
    let second = r.create_lightning_mark(&key(1), 2, &key(9), String::from("a"), &key(2), 10);
    assert_eq!(second.unwrap_err(), ErrorCode::DuplicateRecord);
    assert!(r.contains(&key(1), &key(9)));
}

#[test]
fn distinct_fingerprints_are_independent_marks() {
    let mut r = MarkRegistry::new();
    let m1 = r
        .create_lightning_mark(&key(1), 0, &key(9), String::new(), &key(2), 0)
        .unwrap();
    let m2 = r
        .create_lightning_mark(&key(1), 0, &key(8), String::new(), &key(2), 0)
        .unwrap();
    assert_eq!(m1.scammer, m2.scammer);
    assert_ne!(m1.proof_hash, m2.proof_hash);
    assert!(r.contains(&key(1), &key(9)));
    assert!(r.contains(&key(1), &key(8)));
}

#[test]
fn metadata_capacity_matches_record_layout() {
    assert_eq!(LightningMark::LEN, 32 + 32 + 8 + 1 + 32 + 200 + 8 + 8 + 1);
}
