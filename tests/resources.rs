use veritech_dispatch::secrets::apply_decryption;
use veritech_dispatch::{
    DecryptError, ExecutorPool, Lease, PoolError, RequestField, SchemaVariantNodeWeight,
    SchemaVariantNodeWeightV1, SensitiveStrings,
};

#[test]
fn pool_lends_up_to_capacity() {
    let mut pool = ExecutorPool::new(2);
    assert_eq!(pool.capacity(), 2);
    let a = pool.acquire().unwrap();
    let b = pool.acquire().unwrap();
    assert_eq!(a, Lease { slot: 0, generation: 0 });
    assert_eq!(b, Lease { slot: 1, generation: 0 });
    assert_eq!(pool.outstanding(), 2);
    assert_eq!(pool.acquire(), Err(PoolError::Exhausted));
    assert_eq!(pool.release(a), Ok(()));
    assert_eq!(pool.outstanding(), 1);
    assert_eq!(pool.acquire(), Ok(Lease { slot: 0, generation: 0 }));
}

#[test]
fn discarded_lease_is_replaced_and_becomes_stale() {
    let mut pool = ExecutorPool::new(1);
    let a = pool.acquire().unwrap();
    assert_eq!(pool.discard(a), Ok(()));
    assert_eq!(pool.outstanding(), 0);
    assert_eq!(pool.release(a), Err(PoolError::StaleLease));
    assert_eq!(pool.discard(a), Err(PoolError::StaleLease));
    let b = pool.acquire().unwrap();
    assert_eq!(b, Lease { slot: 0, generation: 1 });
    assert_eq!(pool.release(a), Err(PoolError::StaleLease));
    assert_eq!(pool.release(b), Ok(()));
    assert_eq!(pool.release(b), Err(PoolError::StaleLease));
    assert_eq!(pool.release(Lease { slot: 7, generation: 0 }), Err(PoolError::StaleLease));
}

#[test]
fn empty_pool_is_always_exhausted() {
    let mut pool = ExecutorPool::new(0);
    assert_eq!(pool.acquire(), Err(PoolError::Exhausted));
    assert_eq!(pool.outstanding(), 0);
}

#[test]
fn decryption_reveals_and_records_secrets() {
    let fields = vec![
        RequestField::Plain("handler".to_string()),
        RequestField::Encrypted("Y2lwaGVy".to_string()),
    ];
    let plaintexts = vec![None, Some("hunter2".to_string())];
    let mut sensitive = SensitiveStrings::new();
    assert!(sensitive.is_empty());
    let out = apply_decryption(&fields, &plaintexts, &mut sensitive).unwrap();
    assert_eq!(out, vec!["handler".to_string(), "hunter2".to_string()]);
    assert!(sensitive.contains("hunter2"));
    assert!(!sensitive.contains("handler"));
}

#[test]
fn decryption_failure_names_the_field_and_records_nothing() {
    let fields = vec![
        RequestField::Encrypted("b2s=".to_string()),
        RequestField::Encrypted("YmFk".to_string()),
    ];
    let plaintexts = vec![Some("ok".to_string()), None];
    let mut sensitive = SensitiveStrings::new();
    assert_eq!(
        apply_decryption(&fields, &plaintexts, &mut sensitive),
        Err(DecryptError::Undecryptable(1))
    );
    assert!(sensitive.is_empty());
}

#[test]
fn sensitive_strings_form_a_set() {
    let mut s = SensitiveStrings::new();
    s.insert("a".to_string());
    s.insert("a".to_string());
    s.insert("b".to_string());
    assert!(s.contains("a"));
    assert!(s.contains("b"));
    assert!(!s.contains("c"));
    assert!(!s.is_empty());
    let mut all = s.to_vec();
    all.sort();
    assert_eq!(all, vec!["a".to_string(), "b".to_string()]);
}

#[test]
fn node_weight_exposes_its_newest_layout() {
    let hash = [7u8; 32];
    let mut w = SchemaVariantNodeWeight::new(1, 2, false, hash);
    assert_eq!(*w.inner(), SchemaVariantNodeWeightV1 { id: 1, lineage_id: 2, is_locked: false, content_hash: hash });
    w.inner_mut().is_locked = true;
    assert!(w.inner().is_locked);
    assert_eq!(w, SchemaVariantNodeWeight::V1(SchemaVariantNodeWeightV1::new(1, 2, true, hash)));
}
