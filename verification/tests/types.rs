use storage_types::kv::Key;
use storage_types::mutation::Mutation;
use storage_types::mvcc::{Lock, MvccInfo, TimeStamp, Write};
use storage_types::txn::TxnStatus;

fn key(bytes: &[u8]) -> Key {
    Key::from_encoded(bytes.to_vec())
}

#[test]
fn key_encoding_round_trip() {
    let k = Key::from_encoded(b"zk_120".to_vec());
    assert_eq!(k.as_encoded(), &b"zk_120".to_vec());
    assert_eq!(k.into_encoded(), b"zk_120".to_vec());
}

#[test]
fn timestamp_round_trip() {
    let ts = TimeStamp::new(409_000_000);
    assert_eq!(ts.into_inner(), 409_000_000);
    assert_eq!(TimeStamp::new(409_000_000), ts);
    assert_ne!(TimeStamp::new(409_000_001), ts);
}

#[test]
fn mutation_key_is_stable_across_calls() {
    let m = Mutation::Put((key(b"row"), b"v".to_vec(), None));
    let first = m.key().clone();
    let second = m.key().clone();
    let third = m.key().clone();
    assert_eq!(first, second);
    assert_eq!(second, third);
    assert_eq!(first, key(b"row"));
}

#[test]
fn into_inner_put() {
    let m = Mutation::Put((key(b"a"), b"x".to_vec(), None));
    let (k, v, sk) = m.into_inner();
    assert_eq!(k, key(b"a"));
    assert_eq!(v, Some(b"x".to_vec()));
    assert_eq!(sk, None);
}

#[test]
fn into_inner_delete_with_secondaries() {
    let secondaries = vec![b"s1".to_vec(), b"s2".to_vec()];
    let m = Mutation::Delete((key(b"a"), Some(secondaries.clone())));
    let (k, v, sk) = m.into_inner();
    assert_eq!(k, key(b"a"));
    assert_eq!(v, None);
    assert_eq!(sk, Some(secondaries));
}

#[test]
fn into_inner_lock() {
    let m = Mutation::Lock((key(b"a"), None));
    let (k, v, sk) = m.into_inner();
    assert_eq!(k, key(b"a"));
    assert_eq!(v, None);
    assert_eq!(sk, None);
}

#[test]
fn into_inner_insert() {
    let m = Mutation::Insert((key(b"a"), b"x".to_vec(), Some(vec![b"s".to_vec()])));
    let (k, v, sk) = m.into_inner();
    assert_eq!(k, key(b"a"));
    assert_eq!(v, Some(b"x".to_vec()));
    assert_eq!(sk, Some(vec![b"s".to_vec()]));
}

#[test]
fn is_insert_true_only_for_insert() {
    assert!(!Mutation::Put((key(b"a"), b"x".to_vec(), None)).is_insert());
    assert!(!Mutation::Delete((key(b"a"), None)).is_insert());
    assert!(!Mutation::Lock((key(b"a"), None)).is_insert());
    assert!(Mutation::Insert((key(b"a"), b"x".to_vec(), None)).is_insert());
}

#[test]
fn uncommitted_constructor_matches_literal() {
    let ts = TimeStamp::new(42);
    let status = TxnStatus::uncommitted(10, ts);
    assert_eq!(status, TxnStatus::Uncommitted { lock_ttl: 10, min_commit_ts: ts });
    assert_ne!(status, TxnStatus::uncommitted(11, ts));
    assert_ne!(status, TxnStatus::uncommitted(10, TimeStamp::new(43)));
    assert_ne!(status, TxnStatus::Rollbacked);
    assert_ne!(status, TxnStatus::TtlExpire);
    assert_ne!(status, TxnStatus::LockNotExist);
    assert_ne!(status, TxnStatus::committed(ts));
}

#[test]
fn committed_constructor_matches_literal() {
    let ts = TimeStamp::new(7);
    let status = TxnStatus::committed(ts);
    assert_eq!(status, TxnStatus::Committed { commit_ts: ts });
    assert_ne!(status, TxnStatus::committed(TimeStamp::new(8)));
    assert_ne!(status, TxnStatus::Rollbacked);
    assert_ne!(status, TxnStatus::uncommitted(0, ts));
}

#[test]
fn mvcc_info_empty_round_trip() {
    let explicit = MvccInfo { lock: None, writes: vec![], values: vec![] };
    assert_eq!(explicit, MvccInfo::default());
}

#[test]
fn mvcc_info_with_records_differs_from_default() {
    let info = MvccInfo {
        lock: Some(Lock { primary: b"p".to_vec(), ts: TimeStamp::new(5), ttl: 100 }),
        writes: vec![(
            TimeStamp::new(7),
            Write { start_ts: TimeStamp::new(5), short_value: Some(b"v".to_vec()) },
        )],
        values: vec![(TimeStamp::new(5), b"v".to_vec())],
    };
    assert_ne!(info, MvccInfo::default());
    assert_eq!(info.writes.len(), 1);
    assert_eq!(info.values.len(), 1);
}
