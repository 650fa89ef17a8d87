use vector_security_layer::crypto::{canonical_event_bytes, domain_hash, hash_bytes, hash_event, hash_request};
use vector_security_layer::{
    sign_request, verifying_key_bytes, Attestation, AttestationSet, AuditLog, MemoryEventStore,
    Nonce, OperationKind, PolicyEngine, PolicyEnvelope, Ratio, RegionId, ReplayStore,
    MemoryReplayStore, SecurityContext, SecurityEngine, SecurityEnvelope, SecurityError,
    SecurityRequest, SigningKey, WalletId, EventStore, FileReplayStore, ReplaySnapshot,
};

fn ratio(x: f64) -> Ratio {
    Ratio::from_bits(x.to_bits())
}

fn value(r: Ratio) -> f64 {
    f64::from_bits(r.to_bits())
}

fn key() -> SigningKey {
    SigningKey::from_bytes(&[11u8; 32])
}

fn envelope(operation: OperationKind, attestations: Vec<Attestation>) -> SecurityEnvelope {
    let key = key();
    let mut request = SecurityRequest {
        protocol_version: 1,
        nonce: Nonce("nonce-0001".into()),
        operation,
        region_id: RegionId("region-alpha".into()),
        wallet_id: WalletId("wallet-001".into()),
        target_wallet: Some(WalletId("wallet-002".into())),
        payload: br#"{"amount":125}"#.to_vec(),
        parent_event_hashes: vec!["parent-hash-a".into()],
        signature: Vec::new(),
        timestamp: 1_710_000_000,
    };
    request.signature = sign_request(&key, &request).unwrap();
    let context = SecurityContext {
        wallet_id: WalletId("wallet-001".into()),
        region_id: RegionId("region-alpha".into()),
        verified_public_key: verifying_key_bytes(&key.verifying_key()),
        auth_ratio: ratio(0.91),
        cert_threshold: ratio(0.75),
        timestamp: 1_710_000_010,
    };
    SecurityEnvelope { request, context, attestations }
}

fn attestation(subject: &str, score: f64) -> Attestation {
    Attestation {
        issuer: "validator".into(),
        subject_wallet: WalletId(subject.into()),
        score: ratio(score),
        note: "note".into(),
        issued_at: 1_710_000_000,
    }
}

#[test]
fn accepted_event_fields() {
    let mut engine = SecurityEngine::new(PolicyEngine::default());
    let env = envelope(OperationKind::Transfer, vec![]);
    let decision = engine.validate(&env, ratio(0.0)).unwrap();
    assert!(decision.accepted);
    assert!(decision.reason.is_none());
    let event = decision.event.unwrap();
    let id_text = "nonce-0001:wallet-001:region-alpha:1710000000";
    assert_eq!(event.event_id.0, domain_hash("vector-security-event-id", id_text.as_bytes()));
    assert_eq!(event.protocol_version, 1);
    assert_eq!(event.parent_hashes, vec!["parent-hash-a".to_string()]);
    assert_eq!(event.region_id.0, "region-alpha");
    assert_eq!(event.entity_id.0, "wallet-001");
    assert_eq!(event.operation.label(), "TRANSFER");
    assert_eq!(event.request_hash, hash_request(&env.request).unwrap());
    assert_eq!(event.payload_hash, hash_bytes(&env.request.payload));
    assert_eq!(value(event.auth_ratio), 0.91);
    assert_eq!(value(event.attestation_score), 0.0);
    assert_eq!(value(event.drain_applied), 0.20);
    assert!(event.certified);
    assert_eq!(event.actor_pk, env.context.verified_public_key);
    assert_eq!(event.nonce.0, "nonce-0001");
    assert_eq!(event.timestamp, 1_710_000_000);
    assert_eq!(event.signature, env.request.signature);
    assert_eq!(event.event_hash, hash_event(&event).unwrap());
    assert_eq!(
        event.event_hash,
        blake3::hash(&canonical_event_bytes(&event).unwrap()).to_hex().to_string()
    );
    let log = engine.audit_log();
    assert_eq!(log.len(), 1);
    assert_eq!(log[0].event_hash, event.event_hash);
}

#[test]
fn replayed_envelope_is_refused() {
    let mut engine = SecurityEngine::new(PolicyEngine::default());
    let env = envelope(OperationKind::Create, vec![]);
    engine.validate(&env, ratio(0.0)).unwrap();
    assert!(matches!(engine.validate(&env, ratio(0.0)), Err(SecurityError::ReplayDetected)));
    assert_eq!(engine.audit_log().len(), 1);
}

#[test]
fn same_nonce_with_other_payload_is_refused() {
    let mut engine = SecurityEngine::new(PolicyEngine::default());
    let env = envelope(OperationKind::Create, vec![]);
    engine.validate(&env, ratio(0.0)).unwrap();
    let key = key();
    let mut other = envelope(OperationKind::Create, vec![]);
    other.request.payload = br#"{"amount":999}"#.to_vec();
    other.request.signature = sign_request(&key, &other.request).unwrap();
    assert!(matches!(engine.validate(&other, ratio(0.0)), Err(SecurityError::ReplayDetected)));
    assert_eq!(engine.audit_log().len(), 1);
    assert_eq!(engine.event_store().load_all().unwrap().len(), 1);
}

#[test]
fn evicted_entries_can_be_replayed() {
    let mut engine = SecurityEngine::builder(PolicyEngine::default())
        .replay_store(MemoryReplayStore::new(1))
        .build();
    let key = key();
    let first = envelope(OperationKind::Create, vec![]);
    engine.validate(&first, ratio(0.0)).unwrap();
    assert!(matches!(engine.validate(&first, ratio(0.0)), Err(SecurityError::ReplayDetected)));
    let mut second = envelope(OperationKind::Create, vec![]);
    second.request.nonce = Nonce("nonce-0002".into());
    second.request.signature = sign_request(&key, &second.request).unwrap();
    engine.validate(&second, ratio(0.0)).unwrap();
    // Windows of one entry no longer hold the first nonce nor the first
    // event's hash, so the first envelope is accepted again.
    assert!(!engine.replay_store().seen_nonce("nonce-0001").unwrap());
    assert!(engine.validate(&first, ratio(0.0)).is_ok());
    assert_eq!(engine.audit_log().len(), 3);
}

#[test]
fn zero_capacity_stores_keep_nothing() {
    for engine_kind in 0..2 {
        let env = envelope(OperationKind::Create, vec![]);
        if engine_kind == 0 {
            let mut engine = SecurityEngine::builder(PolicyEngine::default())
                .replay_store(MemoryReplayStore::new(0))
                .build();
            engine.validate(&env, ratio(0.0)).unwrap();
            assert!(engine.validate(&env, ratio(0.0)).is_ok());
            assert_eq!(engine.audit_log().len(), 2);
        } else {
            let mut engine = SecurityEngine::builder(PolicyEngine::default())
                .replay_store(FileReplayStore::with_snapshot("replay.json", ReplaySnapshot::new(), 0))
                .build();
            engine.validate(&env, ratio(0.0)).unwrap();
            assert!(engine.validate(&env, ratio(0.0)).is_ok());
            assert_eq!(engine.audit_log().len(), 2);
        }
    }
}

#[test]
fn fresh_engines_agree() {
    let env = envelope(OperationKind::Transfer, vec![attestation("wallet-001", 0.9)]);
    let mut first = SecurityEngine::new(PolicyEngine::default());
    let mut second = SecurityEngine::new(PolicyEngine::default());
    let a = first.validate(&env, ratio(0.9)).unwrap().event.unwrap();
    let b = second.validate(&env, ratio(0.9)).unwrap().event.unwrap();
    assert_eq!(a.event_id.0, b.event_id.0);
    assert_eq!(a.request_hash, b.request_hash);
    assert_eq!(a.payload_hash, b.payload_hash);
    assert_eq!(a.event_hash, b.event_hash);
    assert_eq!(a.certified, b.certified);
    assert_eq!(value(a.attestation_score), value(b.attestation_score));
    let mut low = env.clone();
    low.context.auth_ratio = ratio(0.1);
    let e1 = first.validate(&low, ratio(0.9)).unwrap_err();
    let e2 = second.validate(&low, ratio(0.9)).unwrap_err();
    assert_eq!(format!("{e1:?}"), format!("{e2:?}"));
}

#[test]
fn policy_refusal_records_nothing() {
    let mut engine = SecurityEngine::new(PolicyEngine::default());
    let mut env = envelope(OperationKind::Create, vec![]);
    env.request.protocol_version = 2;
    match engine.validate(&env, ratio(0.0)) {
        Err(SecurityError::PolicyViolation(m)) => assert_eq!(m, "unsupported protocol version: 2 != 1"),
        other => panic!("unexpected {other:?}"),
    }
    assert!(engine.audit_log().is_empty());
}

#[test]
fn region_mismatch_when_cross_region_is_allowed_passes() {
    let mut env_policy = PolicyEnvelope::default();
    env_policy.allow_cross_region = true;
    let mut engine = SecurityEngine::new(PolicyEngine::with_envelope(env_policy));
    let mut env = envelope(OperationKind::Create, vec![]);
    env.context.region_id = RegionId("region-beta".into());
    let event = engine.validate(&env, ratio(0.0)).unwrap().event.unwrap();
    assert_eq!(event.region_id.0, "region-beta");
}

#[test]
fn wallet_mismatch_message() {
    let mut engine = SecurityEngine::new(PolicyEngine::default());
    let mut env = envelope(OperationKind::Create, vec![]);
    env.context.wallet_id = WalletId("wallet-xyz".into());
    match engine.validate(&env, ratio(0.0)) {
        Err(SecurityError::PolicyViolation(m)) => {
            assert_eq!(m, "wallet mismatch: request=wallet-001 context=wallet-xyz")
        }
        other => panic!("unexpected {other:?}"),
    }
}

#[test]
fn attestation_subject_mismatch() {
    let mut engine = SecurityEngine::new(PolicyEngine::default());
    let env = envelope(
        OperationKind::Create,
        vec![attestation("wallet-001", 0.9), attestation("wallet-777", 0.9)],
    );
    match engine.validate(&env, ratio(0.9)) {
        Err(SecurityError::PolicyViolation(m)) => {
            assert_eq!(m, "attestation subject mismatch: expected wallet-001, saw wallet-777")
        }
        other => panic!("unexpected {other:?}"),
    }
}

#[test]
fn attestation_score_thresholds() {
    let mut engine = SecurityEngine::new(PolicyEngine::default()).with_attestation_threshold(ratio(0.4));
    let env = envelope(OperationKind::Create, vec![attestation("wallet-001", 0.3)]);
    match engine.validate(&env, ratio(0.3)) {
        Err(SecurityError::AttestationBelowThreshold { got, required }) => {
            assert_eq!(value(got), 0.3);
            assert_eq!(value(required), 0.4);
        }
        other => panic!("unexpected {other:?}"),
    }
    let env = envelope(OperationKind::Create, vec![attestation("wallet-001", 0.45)]);
    match engine.validate(&env, ratio(0.45)) {
        Err(SecurityError::AttestationBelowThreshold { got, required }) => {
            assert_eq!(value(got), 0.45);
            assert_eq!(value(required), 0.5);
        }
        other => panic!("unexpected {other:?}"),
    }
    assert!(engine.validate(&env, ratio(0.5)).is_ok());
}

#[test]
fn threshold_is_clamped() {
    let mut engine = SecurityEngine::new(PolicyEngine::default()).with_attestation_threshold(ratio(7.0));
    let env = envelope(OperationKind::Create, vec![attestation("wallet-001", 0.99)]);
    match engine.validate(&env, ratio(0.99)) {
        Err(SecurityError::AttestationBelowThreshold { required, .. }) => assert_eq!(value(required), 1.0),
        other => panic!("unexpected {other:?}"),
    }
}

#[test]
fn certification_threshold_refusal() {
    let mut engine = SecurityEngine::new(PolicyEngine::default());
    let mut env = envelope(OperationKind::Create, vec![]);
    env.context.cert_threshold = ratio(0.95);
    match engine.validate(&env, ratio(0.0)) {
        Err(SecurityError::AuthBelowThreshold { got, required }) => {
            assert_eq!(value(got), 0.91);
            assert_eq!(value(required), 0.95);
        }
        other => panic!("unexpected {other:?}"),
    }
}

#[test]
fn forged_signature_is_refused() {
    let mut engine = SecurityEngine::new(PolicyEngine::default());
    let mut env = envelope(OperationKind::Create, vec![]);
    env.request.payload = b"changed".to_vec();
    assert!(matches!(engine.validate(&env, ratio(0.0)), Err(SecurityError::InvalidSignature)));
    let mut env = envelope(OperationKind::Create, vec![]);
    env.request.signature.truncate(40);
    assert!(matches!(engine.validate(&env, ratio(0.0)), Err(SecurityError::InvalidSignatureLength)));
}

#[test]
fn builder_with_custom_stores() {
    let mut replay = MemoryReplayStore::new(4);
    replay.remember_nonce("nonce-0001").unwrap();
    let mut engine = SecurityEngine::builder(PolicyEngine::default())
        .node_label("node-7")
        .attestation_threshold(ratio(0.6))
        .replay_store(replay)
        .event_store(MemoryEventStore::default())
        .audit_sink(AuditLog::new())
        .build();
    assert_eq!(engine.node_label(), "node-7");
    let env = envelope(OperationKind::Create, vec![]);
    assert!(matches!(engine.validate(&env, ratio(0.0)), Err(SecurityError::ReplayDetected)));
    assert_eq!(value(engine.policy().envelope().min_auth_ratio), 0.65);
}

#[test]
fn reject_decision() {
    let engine = SecurityEngine::new(PolicyEngine::default());
    let d = engine.reject("manual hold");
    assert!(!d.accepted);
    assert_eq!(d.reason.as_deref(), Some("manual hold"));
    assert!(d.event.is_none());
}

#[test]
fn attestation_set_helpers() {
    let set = AttestationSet::new(vec![
        attestation("wallet-001", 0.8),
        attestation("wallet-001", 1.7),
        attestation("wallet-001", f64::NAN),
    ]);
    assert_eq!(set.count(), 3);
    assert_eq!(set.items().len(), 3);
    assert!(set.validate_subject(&WalletId("wallet-001".into())).is_ok());
    let summary = set.summary(ratio(0.9));
    assert_eq!(summary.count, 3);
    assert_eq!(value(summary.mean_score), 0.9);
    assert_eq!(value(summary.min_score), 0.8);
    assert_eq!(value(summary.max_score), 1.0);
    let empty = AttestationSet::default().summary(ratio(0.5));
    assert_eq!(empty.count, 0);
    assert_eq!(value(empty.mean_score), 0.0);
    let passed = set.require_min_score(ratio(0.5), ratio(0.6)).unwrap();
    assert!(passed.passed());
    match set.require_min_score(ratio(0.7), ratio(0.6)) {
        Err(SecurityError::AttestationBelowThreshold { got, required }) => {
            assert_eq!(value(got), 0.6);
            assert_eq!(value(required), 0.7);
        }
        other => panic!("unexpected {other:?}"),
    }
}

#[test]
fn summary_extremes() {
    let set = AttestationSet::new(vec![
        attestation("wallet-001", 0.4),
        attestation("wallet-001", -0.3),
        attestation("wallet-001", 0.7),
    ]);
    let summary = set.summary(ratio(0.5));
    assert_eq!(value(summary.min_score), 0.0);
    assert_eq!(value(summary.max_score), 0.7);
    assert!(value(summary.min_score) <= value(summary.max_score));
    let only_nan = AttestationSet::new(vec![attestation("wallet-001", f64::NAN)]).summary(ratio(0.0));
    assert_eq!(value(only_nan.min_score), 1.0);
    assert_eq!(value(only_nan.max_score), 0.0);
}
