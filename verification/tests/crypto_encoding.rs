use vector_security_layer::crypto::{
    canonical_event_bytes, canonical_request_bytes, domain_hash, hash_bytes, hash_event,
    hash_request, keypair_from_signing_key, public_key_from_bytes, verify_request_signature,
};
use vector_security_layer::{
    generate_signing_key, sign_request, signature_from_bytes, verifying_key_bytes, EventId, Nonce,
    OperationKind, Ratio, RegionId, SecurityError, SecurityEvent, SecurityRequest, SigningKey,
    WalletId,
};

fn framed(out: &mut Vec<u8>, bytes: &[u8]) {
    out.extend_from_slice(&(bytes.len() as u64).to_be_bytes());
    out.extend_from_slice(bytes);
}

fn request() -> SecurityRequest {
    SecurityRequest {
        protocol_version: 3,
        nonce: Nonce("n-1".into()),
        operation: OperationKind::Custom("mint".into()),
        region_id: RegionId("eu".into()),
        wallet_id: WalletId("w".into()),
        target_wallet: None,
        payload: vec![1, 2, 3],
        parent_event_hashes: vec!["a".into(), "bc".into()],
        signature: vec![9; 64],
        timestamp: -2,
    }
}

fn fixed_key() -> SigningKey {
    SigningKey::from_bytes(&[7u8; 32])
}

#[test]
fn canonical_request_layout() {
    let mut expected = Vec::new();
    expected.extend_from_slice(&3u32.to_be_bytes());
    framed(&mut expected, b"n-1");
    framed(&mut expected, b"CUSTOM:mint");
    framed(&mut expected, b"eu");
    framed(&mut expected, b"w");
    framed(&mut expected, b"<none>");
    framed(&mut expected, &[1, 2, 3]);
    framed(&mut expected, b"a");
    framed(&mut expected, b"bc");
    expected.extend_from_slice(&(-2i64).to_be_bytes());
    assert_eq!(canonical_request_bytes(&request()).unwrap(), expected);

    let mut with_target = request();
    with_target.target_wallet = Some(WalletId("tgt".into()));
    let bytes = canonical_request_bytes(&with_target).unwrap();
    let mut prefix = Vec::new();
    prefix.extend_from_slice(&3u32.to_be_bytes());
    framed(&mut prefix, b"n-1");
    framed(&mut prefix, b"CUSTOM:mint");
    framed(&mut prefix, b"eu");
    framed(&mut prefix, b"w");
    framed(&mut prefix, b"tgt");
    assert_eq!(&bytes[..prefix.len()], &prefix[..]);
}

#[test]
fn canonical_request_ignores_signature() {
    let mut other = request();
    other.signature = vec![];
    assert_eq!(canonical_request_bytes(&request()).unwrap(), canonical_request_bytes(&other).unwrap());
}

#[test]
fn canonical_request_binds_fields() {
    let base = canonical_request_bytes(&request()).unwrap();
    let changes: Vec<Box<dyn Fn(&mut SecurityRequest)>> = vec![
        Box::new(|r| r.protocol_version = 4),
        Box::new(|r| r.nonce = Nonce("n-2".into())),
        Box::new(|r| r.operation = OperationKind::Custom("burn".into())),
        Box::new(|r| r.region_id = RegionId("us".into())),
        Box::new(|r| r.wallet_id = WalletId("v".into())),
        Box::new(|r| r.target_wallet = Some(WalletId("t".into()))),
        Box::new(|r| r.payload = vec![1, 2]),
        Box::new(|r| r.parent_event_hashes = vec!["ab".into(), "c".into()]),
        Box::new(|r| r.timestamp = 7),
    ];
    for change in &changes {
        let mut other = request();
        change(&mut other);
        assert_ne!(canonical_request_bytes(&other).unwrap(), base);
    }
    // An absent target and a target named `<none>` are written alike.
    let mut named = request();
    named.target_wallet = Some(WalletId("<none>".into()));
    assert_eq!(canonical_request_bytes(&named).unwrap(), base);
}

fn event() -> SecurityEvent {
    SecurityEvent {
        event_id: EventId("id".into()),
        protocol_version: 1,
        parent_hashes: vec!["p".into()],
        region_id: RegionId("r".into()),
        entity_id: WalletId("w".into()),
        operation: OperationKind::Move,
        request_hash: "rh".into(),
        payload_hash: "ph".into(),
        auth_ratio: Ratio::from_bits(0.75f64.to_bits()),
        attestation_score: Ratio::from_bits(0.5f64.to_bits()),
        drain_applied: Ratio::from_bits(0.02f64.to_bits()),
        certified: true,
        actor_pk: vec![4, 5],
        nonce: Nonce("n".into()),
        timestamp: 77,
        signature: vec![6],
        event_hash: "ignored".into(),
    }
}

#[test]
fn canonical_event_layout() {
    let mut expected = Vec::new();
    expected.extend_from_slice(&1u32.to_be_bytes());
    framed(&mut expected, b"id");
    framed(&mut expected, b"p");
    framed(&mut expected, b"r");
    framed(&mut expected, b"w");
    framed(&mut expected, b"MOVE");
    framed(&mut expected, b"rh");
    framed(&mut expected, b"ph");
    expected.extend_from_slice(&0.75f64.to_bits().to_be_bytes());
    expected.extend_from_slice(&0.5f64.to_bits().to_be_bytes());
    expected.extend_from_slice(&0.02f64.to_bits().to_be_bytes());
    expected.push(1);
    framed(&mut expected, &[4, 5]);
    framed(&mut expected, b"n");
    expected.extend_from_slice(&77i64.to_be_bytes());
    framed(&mut expected, &[6]);
    assert_eq!(canonical_event_bytes(&event()).unwrap(), expected);
    assert_eq!(hash_event(&event()).unwrap(), blake3::hash(&expected).to_hex().to_string());
    let mut other = event();
    other.event_hash = String::new();
    assert_eq!(hash_event(&event()).unwrap(), hash_event(&other).unwrap());
}

#[test]
fn hashes_match_blake3() {
    assert_eq!(hash_bytes(b"abc"), blake3::hash(b"abc").to_hex().to_string());
    assert_eq!(
        hash_bytes(b"abc"),
        "6437b3ac38465133ffb63b75273a8db548c558465d79db03fd359c6cd5bd9d85"
    );
    assert_eq!(hash_bytes(b"").len(), 64);
    let mut hasher = blake3::Hasher::new();
    hasher.update(b"domain");
    hasher.update(&[0]);
    hasher.update(b"bytes");
    assert_eq!(domain_hash("domain", b"bytes"), hasher.finalize().to_hex().to_string());
    let bytes = canonical_request_bytes(&request()).unwrap();
    assert_eq!(hash_request(&request()).unwrap(), blake3::hash(&bytes).to_hex().to_string());
}

#[test]
fn signing_is_ed25519() {
    let key = fixed_key();
    let dalek = ed25519_dalek::SigningKey::from_bytes(&[7u8; 32]);
    assert_eq!(verifying_key_bytes(&key.verifying_key()), dalek.verifying_key().to_bytes().to_vec());
    let req = request();
    let signature = sign_request(&key, &req).unwrap();
    let bytes = canonical_request_bytes(&req).unwrap();
    let expected = ed25519_dalek::Signer::sign(&dalek, &bytes);
    assert_eq!(signature, expected.to_bytes().to_vec());
    assert_eq!(key.to_bytes(), vec![7u8; 32]);
}

#[test]
fn signature_round_trip() {
    let key = generate_signing_key();
    let mut req = request();
    req.signature = sign_request(&key, &req).unwrap();
    let verifying_key = key.verifying_key();
    assert!(verify_request_signature(&verifying_key, &req).is_ok());

    let mut tampered = req.clone();
    tampered.payload.push(0);
    assert!(matches!(verify_request_signature(&verifying_key, &tampered), Err(SecurityError::InvalidSignature)));

    let other = generate_signing_key().verifying_key();
    assert!(matches!(verify_request_signature(&other, &req), Err(SecurityError::InvalidSignature)));

    let mut short = req.clone();
    short.signature.pop();
    assert!(matches!(
        verify_request_signature(&verifying_key, &short),
        Err(SecurityError::InvalidSignatureLength)
    ));
}

#[test]
fn public_key_parsing() {
    let key = fixed_key();
    let bytes = verifying_key_bytes(&key.verifying_key());
    let parsed = public_key_from_bytes(&bytes).unwrap();
    assert_eq!(verifying_key_bytes(&parsed), bytes);
    match public_key_from_bytes(&bytes[..31]) {
        Err(SecurityError::InvalidRequest(m)) => assert_eq!(m, "public key must be 32 bytes"),
        other => panic!("unexpected {other:?}"),
    }
    let invalid = (0u8..=255)
        .map(|b| {
            let mut candidate = [0u8; 32];
            candidate[0] = b;
            candidate[31] = 0x7f;
            candidate
        })
        .find(|c| ed25519_dalek::VerifyingKey::from_bytes(c).is_err())
        .expect("some encoding is not a point");
    match public_key_from_bytes(&invalid) {
        Err(SecurityError::InvalidRequest(m)) => assert_eq!(m, "invalid public key bytes"),
        other => panic!("unexpected {other:?}"),
    }
}

#[test]
fn signature_parsing() {
    let parsed = signature_from_bytes(&[3u8; 64]).unwrap();
    assert_eq!(parsed.to_bytes(), vec![3u8; 64]);
    assert_eq!(signature_from_bytes(&[3u8; 63]).unwrap_err(), "signature error");
    assert_eq!(signature_from_bytes(&[]).unwrap_err(), "signature error");
}

#[test]
fn keypair_from_key() {
    let pair = keypair_from_signing_key(fixed_key());
    let dalek = ed25519_dalek::SigningKey::from_bytes(&[7u8; 32]);
    assert_eq!(pair.signing_key.to_bytes(), vec![7u8; 32]);
    assert_eq!(pair.verifying_key.to_bytes(), dalek.verifying_key().to_bytes().to_vec());
}
