use vector_security_layer::{
    generate_signing_key, sign_request, verifying_key_bytes, Attestation, Nonce, OperationKind,
    PolicyEngine, Ratio, RegionId, SecurityContext, SecurityEngine, SecurityEnvelope,
    SecurityError, SecurityRequest, SigningKey, WalletId,
};

fn ratio(x: f64) -> Ratio {
    Ratio::from_bits(x.to_bits())
}

/// The mean of the clamped scores, clamped, as the attestation set computes it.
fn total_score(attestations: &[Attestation]) -> Ratio {
    if attestations.is_empty() {
        return ratio(0.0);
    }
    let sum: f64 = attestations.iter().map(|a| f64::from_bits(a.score.to_bits()).clamp(0.0, 1.0)).sum();
    ratio((sum / attestations.len() as f64).clamp(0.0, 1.0))
}

/// The message of an error, as the service reports it.
fn error_text(err: &SecurityError) -> String {
    match err {
        SecurityError::InvalidSignature => "signature verification failed".to_string(),
        SecurityError::InvalidSignatureLength => "invalid request signature length".to_string(),
        SecurityError::ReplayDetected => "request replay detected".to_string(),
        SecurityError::PolicyViolation(m) => format!("policy violation: {m}"),
        SecurityError::AuthBelowThreshold { got, required } => format!(
            "auth ratio below threshold: got {}, required {}",
            f64::from_bits(got.to_bits()),
            f64::from_bits(required.to_bits())
        ),
        SecurityError::AttestationBelowThreshold { got, required } => format!(
            "attestation score below threshold: got {}, required {}",
            f64::from_bits(got.to_bits()),
            f64::from_bits(required.to_bits())
        ),
        SecurityError::InvalidRequest(m) => format!("invalid request: {m}"),
        SecurityError::Serialization(m) => format!("serialization error: {m}"),
        SecurityError::Storage(m) => format!("storage error: {m}"),
        SecurityError::Configuration(m) => format!("configuration error: {m}"),
        SecurityError::Internal(m) => format!("internal error: {m}"),
    }
}

const REQUEST_TIME: i64 = 1_710_000_123;

fn build_request() -> (SigningKey, SecurityRequest) {
    let signing_key = generate_signing_key();
    let mut request = SecurityRequest {
        protocol_version: 1,
        nonce: Nonce("nonce-test-1".into()),
        operation: OperationKind::Create,
        region_id: RegionId("region-a".into()),
        wallet_id: WalletId("wallet-a".into()),
        target_wallet: None,
        payload: br#"{"kind":"create"}"#.to_vec(),
        parent_event_hashes: vec![],
        signature: Vec::new(),
        timestamp: REQUEST_TIME,
    };
    request.signature = sign_request(&signing_key, &request).expect("signed");
    (signing_key, request)
}

/// The context of a request received at the time it was issued.
fn context(wallet: &str, region: &str, key: &SigningKey, auth_ratio: f64, cert_threshold: f64) -> SecurityContext {
    SecurityContext::at(
        wallet,
        region,
        verifying_key_bytes(&key.verifying_key()),
        ratio(auth_ratio),
        ratio(cert_threshold),
        REQUEST_TIME,
    )
}

#[test]
fn accepts_valid_request() {
    let (signing_key, request) = build_request();
    let ctx = context("wallet-a", "region-a", &signing_key, 0.88, 0.70);
    let mut engine = SecurityEngine::new(PolicyEngine::default());
    let envelope = SecurityEnvelope { request, context: ctx, attestations: vec![] };
    let score = total_score(&envelope.attestations);
    let decision = engine.validate(&envelope, score).expect("valid");
    assert!(decision.accepted);
    assert!(decision.event.is_some());
}

#[test]
fn rejects_replay() {
    let (signing_key, request) = build_request();
    let ctx = context("wallet-a", "region-a", &signing_key, 0.88, 0.70);
    let mut engine = SecurityEngine::new(PolicyEngine::default());
    let envelope = SecurityEnvelope { request: request.clone(), context: ctx.clone(), attestations: vec![] };
    let _ = engine.validate(&envelope, total_score(&envelope.attestations)).expect("first request accepted");

    let envelope2 = SecurityEnvelope { request, context: ctx, attestations: vec![] };
    let err = engine
        .validate(&envelope2, total_score(&envelope2.attestations))
        .expect_err("replay should fail");
    assert!(error_text(&err).contains("replay"));
}

#[test]
fn rejects_low_auth_ratio() {
    let (signing_key, request) = build_request();
    let ctx = context("wallet-a", "region-a", &signing_key, 0.10, 0.70);
    let mut engine = SecurityEngine::new(PolicyEngine::default());
    let envelope = SecurityEnvelope { request, context: ctx, attestations: vec![] };
    let err = engine
        .validate(&envelope, total_score(&envelope.attestations))
        .expect_err("low auth should fail");
    assert!(error_text(&err).contains("auth ratio"));
}

#[test]
fn accepts_supported_attestations() {
    let (signing_key, request) = build_request();
    let ctx = context("wallet-a", "region-a", &signing_key, 0.92, 0.80);
    let mut engine = SecurityEngine::new(PolicyEngine::default()).with_attestation_threshold(ratio(0.50));
    let envelope = SecurityEnvelope {
        request,
        context: ctx,
        attestations: vec![
            Attestation {
                issuer: "validator-1".into(),
                subject_wallet: WalletId("wallet-a".into()),
                score: ratio(0.80),
                note: "healthy reputation".into(),
                issued_at: 1_710_000_100,
            },
            Attestation {
                issuer: "validator-2".into(),
                subject_wallet: WalletId("wallet-a".into()),
                score: ratio(0.60),
                note: "secondary confirmation".into(),
                issued_at: 1_710_000_101,
            },
        ],
    };
    let score = total_score(&envelope.attestations);
    let decision = engine.validate(&envelope, score).expect("attested");
    assert!(decision.accepted);
}

#[test]
fn rejects_wallet_mismatch() {
    let (signing_key, request) = build_request();
    let ctx = context("wallet-b", "region-a", &signing_key, 0.88, 0.70);
    let mut engine = SecurityEngine::new(PolicyEngine::default());
    let envelope = SecurityEnvelope { request, context: ctx, attestations: vec![] };
    let err = engine
        .validate(&envelope, total_score(&envelope.attestations))
        .expect_err("wallet mismatch should fail");
    assert!(error_text(&err).contains("wallet mismatch"));
}
