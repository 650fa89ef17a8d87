use vector_security_layer::{
    AuditLog, AuditSink, EventId, EventStore, FileEventStore, FileReplayStore, MemoryEventStore,
    MemoryReplayStore, Nonce, OperationKind, Ratio, RegionId, ReplayGuard, ReplaySnapshot,
    ReplayStore, SecurityError, SecurityEvent, WalletId,
};

fn event(hash: &str) -> SecurityEvent {
    SecurityEvent {
        event_id: EventId(format!("id-{hash}")),
        protocol_version: 1,
        parent_hashes: vec![],
        region_id: RegionId("r".into()),
        entity_id: WalletId("w".into()),
        operation: OperationKind::Create,
        request_hash: "rh".into(),
        payload_hash: "ph".into(),
        auth_ratio: Ratio::from_bits(0),
        attestation_score: Ratio::from_bits(0),
        drain_applied: Ratio::from_bits(0),
        certified: true,
        actor_pk: vec![],
        nonce: Nonce("n".into()),
        timestamp: 1,
        signature: vec![],
        event_hash: hash.into(),
    }
}

#[test]
fn guard_detects_remembered_nonce() {
    let mut guard = ReplayGuard::new();
    assert!(guard.check_nonce("a").is_ok());
    guard.remember_nonce("a");
    assert!(matches!(guard.check_nonce("a"), Err(SecurityError::ReplayDetected)));
    assert!(guard.check_nonce("b").is_ok());
    guard.remember_nonce("a");
    assert_eq!(guard.seen_count(), 1);
}

#[test]
fn guard_evicts_oldest_nonce_first() {
    let mut guard = ReplayGuard::with_capacity(2);
    guard.remember_nonce("a");
    guard.remember_nonce("b");
    guard.remember_nonce("c");
    assert_eq!(guard.seen_count(), 2);
    assert!(guard.check_nonce("a").is_ok());
    assert!(guard.check_nonce("b").is_err());
    assert!(guard.check_nonce("c").is_err());
    guard.remember_nonce("b");
    guard.remember_nonce("d");
    assert!(guard.check_nonce("b").is_ok());
    assert!(guard.check_nonce("c").is_err());
    assert!(guard.check_nonce("d").is_err());
}

#[test]
fn guard_with_zero_capacity_keeps_nothing() {
    let mut guard = ReplayGuard::with_capacity(0);
    guard.remember_nonce("a");
    assert_eq!(guard.seen_count(), 0);
    assert!(guard.check_nonce("a").is_ok());
}

#[test]
fn guard_event_hashes_are_bounded() {
    let mut guard = ReplayGuard::with_capacity(1);
    guard.remember_event_hash("h1");
    assert!(matches!(guard.check_event_hash("h1"), Err(SecurityError::ReplayDetected)));
    guard.remember_event_hash("h2");
    assert!(guard.check_event_hash("h1").is_ok());
    assert!(guard.check_event_hash("h2").is_err());
    guard.remember_event_hash("h2");
    assert!(guard.check_event_hash("h2").is_err());
    assert!(guard.check_event_hash("h3").is_ok());
    assert_eq!(guard.seen_count(), 0);
    let mut empty = ReplayGuard::with_capacity(0);
    empty.remember_event_hash("h1");
    assert!(empty.check_event_hash("h1").is_ok());
    let default_guard = ReplayGuard::default();
    assert_eq!(default_guard.seen_count(), 0);
}

#[test]
fn memory_replay_store() {
    let mut store = MemoryReplayStore::new(2);
    assert_eq!(store.seen_nonce("x").unwrap(), false);
    store.remember_nonce("x").unwrap();
    assert_eq!(store.seen_nonce("x").unwrap(), true);
    store.remember_nonce("y").unwrap();
    store.remember_nonce("z").unwrap();
    assert_eq!(store.seen_nonce("x").unwrap(), false);
    store.remember_event_hash("e").unwrap();
    assert_eq!(store.seen_event_hash("e").unwrap(), true);
    assert_eq!(store.seen_event_hash("f").unwrap(), false);
    store.remember_event_hash("f").unwrap();
    store.remember_event_hash("g").unwrap();
    assert_eq!(store.seen_event_hash("e").unwrap(), false);
    assert_eq!(store.seen_event_hash("g").unwrap(), true);
    assert_eq!(store.seen_nonce("z").unwrap(), true);
}

#[test]
fn file_replay_store_trims_both_lists() {
    let snapshot = ReplaySnapshot {
        nonces: vec!["a".into(), "b".into(), "c".into()],
        event_hashes: vec!["h1".into(), "h2".into(), "h3".into()],
    };
    let mut store = FileReplayStore::with_snapshot("/tmp/replay.json", snapshot, 2);
    assert_eq!(store.path(), "/tmp/replay.json");
    assert_eq!(store.seen_nonce("a").unwrap(), true);
    store.remember_nonce("b").unwrap();
    assert_eq!(store.snapshot().nonces, vec!["b".to_string(), "c".to_string()]);
    assert_eq!(store.snapshot().event_hashes, vec!["h2".to_string(), "h3".to_string()]);
    store.remember_event_hash("h4").unwrap();
    assert_eq!(store.snapshot().event_hashes, vec!["h3".to_string(), "h4".to_string()]);
    assert_eq!(store.seen_event_hash("h2").unwrap(), false);
    store.remember_nonce("d").unwrap();
    assert_eq!(store.snapshot().nonces, vec!["c".to_string(), "d".to_string()]);
    assert_eq!(store.seen_nonce("b").unwrap(), false);
}

#[test]
fn file_event_store_path() {
    let store = FileEventStore::new("/var/lib/events.jsonl");
    assert_eq!(store.path(), "/var/lib/events.jsonl");
}

#[test]
fn memory_event_store_appends() {
    let mut store = MemoryEventStore::default();
    assert!(store.load_all().unwrap().is_empty());
    store.append(&event("h1")).unwrap();
    store.append(&event("h2")).unwrap();
    let all = store.load_all().unwrap();
    assert_eq!(all.len(), 2);
    assert_eq!(all[0].event_hash, "h1");
    assert_eq!(all[1].event_hash, "h2");
}

#[test]
fn audit_log_chain_head() {
    let mut log = AuditLog::new();
    assert!(log.is_empty());
    assert!(log.latest().is_none());
    let empty_head = blake3::hash(b"vector-security-audit-v1").to_hex().to_string();
    assert_eq!(log.chain_head(), empty_head);
    log.append(event("h1"));
    log.append(event("h2"));
    assert!(!log.is_empty());
    assert_eq!(log.len(), 2);
    assert_eq!(log.latest().unwrap().event_hash, "h2");
    assert_eq!(log.list().len(), 2);
    let mut hasher = blake3::Hasher::new();
    hasher.update(b"vector-security-audit-v1");
    hasher.update(b"h1");
    hasher.update(&[0]);
    hasher.update(b"h2");
    hasher.update(&[0]);
    assert_eq!(log.chain_head(), hasher.finalize().to_hex().to_string());
}
