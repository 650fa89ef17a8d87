use vector_security_layer::{
    Nonce, OperationKind, PolicyEngine, PolicyEnvelope, Ratio, RegionId, SecurityContext,
    SecurityError, SecurityRequest, WalletId,
};

fn ratio(x: f64) -> Ratio {
    Ratio::from_bits(x.to_bits())
}

fn request() -> SecurityRequest {
    SecurityRequest {
        protocol_version: 1,
        nonce: Nonce("nonce-1".into()),
        operation: OperationKind::Transfer,
        region_id: RegionId("region-a".into()),
        wallet_id: WalletId("wallet-a".into()),
        target_wallet: Some(WalletId("wallet-b".into())),
        payload: b"payload".to_vec(),
        parent_event_hashes: vec!["p1".into()],
        signature: vec![7u8; 64],
        timestamp: 1_000,
    }
}

fn context() -> SecurityContext {
    SecurityContext {
        wallet_id: WalletId("wallet-a".into()),
        region_id: RegionId("region-a".into()),
        verified_public_key: vec![0u8; 32],
        auth_ratio: ratio(0.9),
        cert_threshold: ratio(0.5),
        timestamp: 1_100,
    }
}

fn violation(r: Result<(), SecurityError>) -> String {
    match r {
        Err(SecurityError::PolicyViolation(m)) => m,
        other => panic!("expected a policy violation, got {other:?}"),
    }
}

fn invalid(r: Result<(), SecurityError>) -> String {
    match r {
        Err(SecurityError::InvalidRequest(m)) => m,
        other => panic!("expected an invalid request, got {other:?}"),
    }
}

#[test]
fn default_policy_accepts_well_formed_request() {
    let engine = PolicyEngine::default();
    assert!(engine.validate(&context(), &request()).is_ok());
}

#[test]
fn default_envelope_values() {
    let env = PolicyEnvelope::default();
    assert!(env.allow_create && env.allow_transfer && env.allow_projection && env.allow_query);
    assert!(!env.allow_cross_region);
    assert!(env.allow_empty_payloads);
    assert_eq!(env.required_protocol_version, 1);
    assert_eq!(f64::from_bits(env.min_auth_ratio.to_bits()), 0.65);
    assert_eq!(f64::from_bits(env.min_attestation_score.to_bits()), 0.50);
    assert_eq!(f64::from_bits(env.max_drain_rate.to_bits()), 0.20);
    assert_eq!(env.max_payload_bytes, 16 * 1024);
    assert_eq!(env.max_parent_hashes, 32);
    assert_eq!(env.max_nonce_len, 128);
    assert_eq!(env.max_signature_bytes, 128);
    assert_eq!(env.max_clock_skew_secs, 300);
}

#[test]
fn structural_request_errors() {
    let engine = PolicyEngine::default();
    let mut req = request();
    req.protocol_version = 0;
    assert_eq!(invalid(engine.validate(&context(), &req)), "protocol_version must be greater than zero");
    let mut req = request();
    req.nonce = Nonce(" \t\u{3000}".into());
    assert_eq!(invalid(engine.validate(&context(), &req)), "nonce is empty");
    let mut req = request();
    req.wallet_id = WalletId("".into());
    assert_eq!(invalid(engine.validate(&context(), &req)), "wallet_id is empty");
    let mut req = request();
    req.region_id = RegionId("\n".into());
    assert_eq!(invalid(engine.validate(&context(), &req)), "region_id is empty");
    let mut req = request();
    req.timestamp = 0;
    assert_eq!(invalid(engine.validate(&context(), &req)), "timestamp must be positive");
}

#[test]
fn structural_context_errors() {
    let engine = PolicyEngine::default();
    let mut ctx = context();
    ctx.wallet_id = WalletId("  ".into());
    assert_eq!(invalid(engine.validate(&ctx, &request())), "wallet_id is empty");
    let mut ctx = context();
    ctx.region_id = RegionId("".into());
    assert_eq!(invalid(engine.validate(&ctx, &request())), "region_id is empty");
    let mut ctx = context();
    ctx.verified_public_key = vec![0u8; 31];
    assert_eq!(invalid(engine.validate(&ctx, &request())), "verified_public_key must be 32 bytes");
    let mut ctx = context();
    ctx.auth_ratio = ratio(1.5);
    assert_eq!(invalid(engine.validate(&ctx, &request())), "auth_ratio must be within [0, 1]");
    let mut ctx = context();
    ctx.auth_ratio = ratio(f64::NAN);
    assert_eq!(invalid(engine.validate(&ctx, &request())), "auth_ratio must be within [0, 1]");
    let mut ctx = context();
    ctx.cert_threshold = ratio(-0.25);
    assert_eq!(invalid(engine.validate(&ctx, &request())), "cert_threshold must be within [0, 1]");
    let mut ctx = context();
    ctx.cert_threshold = ratio(-0.0);
    assert!(engine.validate(&ctx, &request()).is_ok());
}

#[test]
fn version_and_size_limits() {
    let engine = PolicyEngine::default();
    let mut req = request();
    req.protocol_version = 7;
    assert_eq!(violation(engine.validate(&context(), &req)), "unsupported protocol version: 7 != 1");
    let mut req = request();
    req.payload = vec![0u8; 16 * 1024 + 1];
    assert_eq!(violation(engine.validate(&context(), &req)), "payload too large: 16385 > 16384");
    let mut req = request();
    req.parent_event_hashes = (0..33).map(|i| format!("p{i}")).collect();
    assert_eq!(violation(engine.validate(&context(), &req)), "too many parent hashes: 33 > 32");
    let mut req = request();
    req.nonce = Nonce("é".repeat(65));
    assert_eq!(violation(engine.validate(&context(), &req)), "nonce too long: 130 > 128");
    let mut req = request();
    req.signature = vec![0u8; 129];
    assert_eq!(violation(engine.validate(&context(), &req)), "signature too long: 129 > 128");
}

#[test]
fn empty_payload_switch() {
    let mut env = PolicyEnvelope::default();
    let mut req = request();
    req.payload = Vec::new();
    assert!(PolicyEngine::with_envelope(env).validate(&context(), &req).is_ok());
    env.allow_empty_payloads = false;
    assert_eq!(
        violation(PolicyEngine::with_envelope(env).validate(&context(), &req)),
        "empty payloads are disabled"
    );
}

#[test]
fn auth_ratio_threshold() {
    let engine = PolicyEngine::default();
    let mut ctx = context();
    ctx.auth_ratio = ratio(0.64);
    match engine.validate(&ctx, &request()) {
        Err(SecurityError::AuthBelowThreshold { got, required }) => {
            assert_eq!(f64::from_bits(got.to_bits()), 0.64);
            assert_eq!(f64::from_bits(required.to_bits()), 0.65);
        }
        other => panic!("unexpected {other:?}"),
    }
    ctx.auth_ratio = ratio(0.65);
    assert!(engine.validate(&ctx, &request()).is_ok());
}

#[test]
fn cross_region_switch() {
    let mut ctx = context();
    ctx.region_id = RegionId("region-b".into());
    let mut env = PolicyEnvelope::default();
    assert_eq!(
        violation(PolicyEngine::with_envelope(env).validate(&ctx, &request())),
        "cross-region operations disabled"
    );
    env.allow_cross_region = true;
    assert!(PolicyEngine::with_envelope(env).validate(&ctx, &request()).is_ok());
}

#[test]
fn clock_skew_limit() {
    let engine = PolicyEngine::default();
    let mut ctx = context();
    ctx.timestamp = 1_300;
    assert!(engine.validate(&ctx, &request()).is_ok());
    ctx.timestamp = 1_301;
    assert_eq!(violation(engine.validate(&ctx, &request())), "timestamp drift too large: 301s > 300s");
    ctx.timestamp = 500;
    assert_eq!(violation(engine.validate(&ctx, &request())), "timestamp drift too large: 500s > 300s");
    let mut env = PolicyEnvelope::default();
    env.max_clock_skew_secs = -5;
    ctx.timestamp = 1_000;
    assert_eq!(
        violation(PolicyEngine::with_envelope(env).validate(&ctx, &request())),
        "timestamp drift too large: 0s > -5s"
    );
}

#[test]
fn extreme_drift_is_refused() {
    let engine = PolicyEngine::default();
    let mut ctx = context();
    ctx.timestamp = -1;
    let mut req = request();
    req.timestamp = i64::MAX;
    assert_eq!(
        violation(engine.validate(&ctx, &req)),
        "timestamp drift too large: 9223372036854775808s > 300s"
    );
    ctx.timestamp = i64::MIN;
    assert_eq!(
        violation(engine.validate(&ctx, &request())),
        format!("timestamp drift too large: {}s > 300s", 1_000u128 + (1u128 << 63))
    );
    // An earlier rule refuses the request before the drift is considered.
    let mut req = request();
    req.protocol_version = 2;
    assert_eq!(violation(engine.validate(&ctx, &req)), "unsupported protocol version: 2 != 1");
    assert!(engine.check_limits(&ctx, &req).is_err());
    assert!(engine.check_limits(&context(), &request()).is_ok());
}

#[test]
fn operation_switches() {
    let ops = [
        (OperationKind::Create, "CREATE is disabled"),
        (OperationKind::Transfer, "TRANSFER is disabled"),
        (OperationKind::Project, "PROJECT is disabled"),
        (OperationKind::Query, "QUERY is disabled"),
    ];
    for (op, message) in ops {
        let mut env = PolicyEnvelope::default();
        env.allow_create = false;
        env.allow_transfer = false;
        env.allow_projection = false;
        env.allow_query = false;
        let mut req = request();
        req.operation = op;
        assert_eq!(violation(PolicyEngine::with_envelope(env).validate(&context(), &req)), message);
    }
    let mut env = PolicyEnvelope::default();
    env.allow_create = false;
    env.allow_transfer = false;
    env.allow_projection = false;
    env.allow_query = false;
    let mut req = request();
    req.operation = OperationKind::Drain;
    assert!(PolicyEngine::with_envelope(env).validate(&context(), &req).is_ok());
}

#[test]
fn custom_operation_name() {
    let engine = PolicyEngine::default();
    let mut req = request();
    req.operation = OperationKind::Custom("\u{2003}".into());
    assert_eq!(violation(engine.validate(&context(), &req)), "custom operation name is empty");
    req.operation = OperationKind::Custom("audit".into());
    assert!(engine.validate(&context(), &req).is_ok());
}

#[test]
fn first_failing_rule_is_reported() {
    let engine = PolicyEngine::default();
    let mut req = request();
    req.protocol_version = 2;
    req.payload = vec![0u8; 20_000];
    assert_eq!(violation(engine.validate(&context(), &req)), "unsupported protocol version: 2 != 1");
}

#[test]
fn drain_rates() {
    let engine = PolicyEngine::default();
    let rate = |op: OperationKind| f64::from_bits(engine.drain_rate_for(&op).to_bits());
    assert_eq!(rate(OperationKind::Transfer), 0.20);
    assert_eq!(rate(OperationKind::Project), 0.20);
    assert_eq!(rate(OperationKind::Move), 0.02);
    assert_eq!(rate(OperationKind::Rotate), 0.02);
    assert_eq!(rate(OperationKind::Scale), 0.02);
    assert_eq!(rate(OperationKind::Create), 0.0);
    assert_eq!(rate(OperationKind::Custom("x".into())), 0.0);
    assert_eq!(rate(OperationKind::Query), 0.0);
}

#[test]
fn envelope_accessor() {
    let mut env = PolicyEnvelope::default();
    env.max_nonce_len = 9;
    let engine = PolicyEngine::with_envelope(env);
    assert_eq!(engine.envelope().max_nonce_len, 9);
}
