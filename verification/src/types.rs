//! The data model: identities, requests, contexts, events and policies.
use crate::crypto::{Signature, SigningKey, VerifyingKey};
use crate::ratio::Ratio;
use crate::text::{is_blank, is_blank_spec, push_text};
use vstd::prelude::*;

verus! {

/// The wallet that issues or receives an operation.
#[derive(Debug, Hash)]
pub struct WalletId(pub String);

/// The region in which an operation is performed.
#[derive(Debug, Hash)]
pub struct RegionId(pub String);

/// The identifier of a recorded event.
#[derive(Debug, Hash)]
pub struct EventId(pub String);

/// A value that a request uses once.
#[derive(Debug, Hash)]
pub struct Nonce(pub String);

impl Clone for WalletId {
    fn clone(&self) -> (r: Self)
        ensures
            r == *self,
    {
        WalletId(self.0.clone())
    }
}

impl Clone for RegionId {
    fn clone(&self) -> (r: Self)
        ensures
            r == *self,
    {
        RegionId(self.0.clone())
    }
}

impl Clone for EventId {
    fn clone(&self) -> (r: Self)
        ensures
            r == *self,
    {
        EventId(self.0.clone())
    }
}

impl Clone for Nonce {
    fn clone(&self) -> (r: Self)
        ensures
            r == *self,
    {
        Nonce(self.0.clone())
    }
}

impl PartialEq for WalletId {
    fn eq(&self, other: &Self) -> (r: bool) {
        self.0 == other.0
    }
}

impl vstd::std_specs::cmp::PartialEqSpecImpl for WalletId {
    open spec fn obeys_eq_spec() -> bool {
        true
    }

    open spec fn eq_spec(&self, other: &Self) -> bool {
        self.0@ == other.0@
    }
}

impl Eq for WalletId {

}

impl PartialEq for RegionId {
    fn eq(&self, other: &Self) -> (r: bool) {
        self.0 == other.0
    }
}

impl vstd::std_specs::cmp::PartialEqSpecImpl for RegionId {
    open spec fn obeys_eq_spec() -> bool {
        true
    }

    open spec fn eq_spec(&self, other: &Self) -> bool {
        self.0@ == other.0@
    }
}

impl Eq for RegionId {

}

impl PartialEq for EventId {
    fn eq(&self, other: &Self) -> (r: bool) {
        self.0 == other.0
    }
}

impl vstd::std_specs::cmp::PartialEqSpecImpl for EventId {
    open spec fn obeys_eq_spec() -> bool {
        true
    }

    open spec fn eq_spec(&self, other: &Self) -> bool {
        self.0@ == other.0@
    }
}

impl Eq for EventId {

}

impl PartialEq for Nonce {
    fn eq(&self, other: &Self) -> (r: bool) {
        self.0 == other.0
    }
}

impl vstd::std_specs::cmp::PartialEqSpecImpl for Nonce {
    open spec fn obeys_eq_spec() -> bool {
        true
    }

    open spec fn eq_spec(&self, other: &Self) -> bool {
        self.0@ == other.0@
    }
}

impl Eq for Nonce {

}

/// The operation that a request asks for.
#[derive(Debug)]
pub enum OperationKind {
    Create,
    Certify,
    Transfer,
    Drain,
    Project,
    Reconstruct,
    Move,
    Rotate,
    Scale,
    Normalize,
    Constrain,
    Query,
    Custom(String),
}

impl Clone for OperationKind {
    fn clone(&self) -> (r: Self)
        ensures
            r == *self,
    {
        match self {
            OperationKind::Create => OperationKind::Create,
            OperationKind::Certify => OperationKind::Certify,
            OperationKind::Transfer => OperationKind::Transfer,
            OperationKind::Drain => OperationKind::Drain,
            OperationKind::Project => OperationKind::Project,
            OperationKind::Reconstruct => OperationKind::Reconstruct,
            OperationKind::Move => OperationKind::Move,
            OperationKind::Rotate => OperationKind::Rotate,
            OperationKind::Scale => OperationKind::Scale,
            OperationKind::Normalize => OperationKind::Normalize,
            OperationKind::Constrain => OperationKind::Constrain,
            OperationKind::Query => OperationKind::Query,
            OperationKind::Custom(s) => OperationKind::Custom(s.clone()),
        }
    }
}

impl PartialEq for OperationKind {
    fn eq(&self, other: &Self) -> (r: bool) {
        match (self, other) {
            (OperationKind::Custom(a), OperationKind::Custom(b)) => *a == *b,
            (OperationKind::Custom(_), _) => false,
            (_, OperationKind::Custom(_)) => false,
            (OperationKind::Create, OperationKind::Create) => true,
            (OperationKind::Certify, OperationKind::Certify) => true,
            (OperationKind::Transfer, OperationKind::Transfer) => true,
            (OperationKind::Drain, OperationKind::Drain) => true,
            (OperationKind::Project, OperationKind::Project) => true,
            (OperationKind::Reconstruct, OperationKind::Reconstruct) => true,
            (OperationKind::Move, OperationKind::Move) => true,
            (OperationKind::Rotate, OperationKind::Rotate) => true,
            (OperationKind::Scale, OperationKind::Scale) => true,
            (OperationKind::Normalize, OperationKind::Normalize) => true,
            (OperationKind::Constrain, OperationKind::Constrain) => true,
            (OperationKind::Query, OperationKind::Query) => true,
            _ => false,
        }
    }
}

impl vstd::std_specs::cmp::PartialEqSpecImpl for OperationKind {
    open spec fn obeys_eq_spec() -> bool {
        true
    }

    /// The same variant, with the same name for custom operations.
    open spec fn eq_spec(&self, other: &Self) -> bool {
        match (self, other) {
            (OperationKind::Custom(a), OperationKind::Custom(b)) => a@ == b@,
            (OperationKind::Custom(_), _) => false,
            (_, OperationKind::Custom(_)) => false,
            _ => *self == *other,
        }
    }
}

impl Eq for OperationKind {

}

impl OperationKind {
    /// The label of the operation: its name in capitals, and `CUSTOM:` before
    /// the name of a custom operation.
    pub open spec fn label_spec(&self) -> Seq<char> {
        match self {
            OperationKind::Create => "CREATE"@,
            OperationKind::Certify => "CERTIFY"@,
            OperationKind::Transfer => "TRANSFER"@,
            OperationKind::Drain => "DRAIN"@,
            OperationKind::Project => "PROJECT"@,
            OperationKind::Reconstruct => "RECONSTRUCT"@,
            OperationKind::Move => "MOVE"@,
            OperationKind::Rotate => "ROTATE"@,
            OperationKind::Scale => "SCALE"@,
            OperationKind::Normalize => "NORMALIZE"@,
            OperationKind::Constrain => "CONSTRAIN"@,
            OperationKind::Query => "QUERY"@,
            OperationKind::Custom(s) => "CUSTOM:"@ + s@,
        }
    }

    /// The label of the operation, as its `Display` writes it.
    pub fn label(&self) -> (s: String)
        ensures
            s@ == self.label_spec(),
    {
        match self {
            OperationKind::Create => String::from_str("CREATE"),
            OperationKind::Certify => String::from_str("CERTIFY"),
            OperationKind::Transfer => String::from_str("TRANSFER"),
            OperationKind::Drain => String::from_str("DRAIN"),
            OperationKind::Project => String::from_str("PROJECT"),
            OperationKind::Reconstruct => String::from_str("RECONSTRUCT"),
            OperationKind::Move => String::from_str("MOVE"),
            OperationKind::Rotate => String::from_str("ROTATE"),
            OperationKind::Scale => String::from_str("SCALE"),
            OperationKind::Normalize => String::from_str("NORMALIZE"),
            OperationKind::Constrain => String::from_str("CONSTRAIN"),
            OperationKind::Query => String::from_str("QUERY"),
            OperationKind::Custom(name) => {
                let mut s = String::from_str("CUSTOM:");
                push_text(&mut s, name.as_str());
                s
            },
        }
    }
}

/// Different operations have different labels: equal labels mean the same
/// variant, and the same name for custom operations.
pub proof fn law_operation_labels_are_distinct(a: OperationKind, b: OperationKind)
    requires
        a.label_spec() == b.label_spec(),
    ensures
        vstd::std_specs::cmp::PartialEqSpec::eq_spec(&a, &b),
{
    reveal_strlit("CREATE");
    reveal_strlit("CERTIFY");
    reveal_strlit("TRANSFER");
    reveal_strlit("DRAIN");
    reveal_strlit("PROJECT");
    reveal_strlit("RECONSTRUCT");
    reveal_strlit("MOVE");
    reveal_strlit("ROTATE");
    reveal_strlit("SCALE");
    reveal_strlit("NORMALIZE");
    reveal_strlit("CONSTRAIN");
    reveal_strlit("QUERY");
    reveal_strlit("CUSTOM:");
    let la = a.label_spec();
    let lb = b.label_spec();
    assert(la[0] == lb[0]);
    assert(la.len() == lb.len());
    if la.len() > 1 {
        assert(la[1] == lb[1]);
    }
    if la.len() > 2 {
        assert(la[2] == lb[2]);
    }
    match (a, b) {
        (OperationKind::Custom(x), OperationKind::Custom(y)) => {
            assert(x@ =~= la.skip(7));
            assert(y@ =~= lb.skip(7));
        },
        _ => {},
    }
}

/// What the caller has established about the requester.
#[derive(Debug)]
pub struct SecurityContext {
    pub wallet_id: WalletId,
    pub region_id: RegionId,
    pub verified_public_key: Vec<u8>,
    pub auth_ratio: Ratio,
    pub cert_threshold: Ratio,
    pub timestamp: i64,
}

impl Clone for SecurityContext {
    fn clone(&self) -> (r: Self)
        ensures
            r.wallet_id == self.wallet_id,
            r.region_id == self.region_id,
            r.verified_public_key@ == self.verified_public_key@,
            r.auth_ratio == self.auth_ratio,
            r.cert_threshold == self.cert_threshold,
            r.timestamp == self.timestamp,
    {
        let key = self.verified_public_key.clone();
        assert(key@ =~= self.verified_public_key@);
        SecurityContext {
            wallet_id: self.wallet_id.clone(),
            region_id: self.region_id.clone(),
            verified_public_key: key,
            auth_ratio: self.auth_ratio,
            cert_threshold: self.cert_threshold,
            timestamp: self.timestamp,
        }
    }
}

impl SecurityContext {
    /// The context of a caller with the given identities, verified key and
    /// ratios, observed at `timestamp` (seconds since the Unix epoch).
    pub fn at(
        wallet_id: &str,
        region_id: &str,
        verified_public_key: Vec<u8>,
        auth_ratio: Ratio,
        cert_threshold: Ratio,
        timestamp: i64,
    ) -> (c: Self)
        ensures
            c.wallet_id.0@ == wallet_id@,
            c.region_id.0@ == region_id@,
            c.verified_public_key@ == verified_public_key@,
            c.auth_ratio == auth_ratio,
            c.cert_threshold == cert_threshold,
            c.timestamp == timestamp,
    {
        SecurityContext {
            wallet_id: WalletId(String::from_str(wallet_id)),
            region_id: RegionId(String::from_str(region_id)),
            verified_public_key,
            auth_ratio,
            cert_threshold,
            timestamp,
        }
    }

    /// The first problem that makes the context malformed, if any.
    pub open spec fn problem(&self) -> Option<Seq<char>> {
        if is_blank_spec(self.wallet_id.0@) {
            Some("wallet_id is empty"@)
        } else if is_blank_spec(self.region_id.0@) {
            Some("region_id is empty"@)
        } else if self.verified_public_key@.len() != 32 {
            Some("verified_public_key must be 32 bytes"@)
        } else if !self.auth_ratio.spec_in_unit() {
            Some("auth_ratio must be within [0, 1]"@)
        } else if !self.cert_threshold.spec_in_unit() {
            Some("cert_threshold must be within [0, 1]"@)
        } else {
            None
        }
    }

    /// Checks that the identifiers are present, the key is 32 bytes long and
    /// both ratios lie in `[0, 1]`; the message names the first failure.
    pub fn validate(&self) -> (r: Result<(), String>)
        ensures
            match r {
                Ok(()) => self.problem() is None,
                Err(m) => self.problem() == Some(m@),
            },
    {
        if is_blank(self.wallet_id.0.as_str()) {
            return Err(String::from_str("wallet_id is empty"));
        }
        if is_blank(self.region_id.0.as_str()) {
            return Err(String::from_str("region_id is empty"));
        }
        if self.verified_public_key.len() != 32 {
            return Err(String::from_str("verified_public_key must be 32 bytes"));
        }
        if !self.auth_ratio.in_unit() {
            return Err(String::from_str("auth_ratio must be within [0, 1]"));
        }
        if !self.cert_threshold.in_unit() {
            return Err(String::from_str("cert_threshold must be within [0, 1]"));
        }
        Ok(())
    }
}

/// A signed request to change or read network state.
#[derive(Debug)]
pub struct SecurityRequest {
    pub protocol_version: u32,
    pub nonce: Nonce,
    pub operation: OperationKind,
    pub region_id: RegionId,
    pub wallet_id: WalletId,
    pub target_wallet: Option<WalletId>,
    pub payload: Vec<u8>,
    pub parent_event_hashes: Vec<String>,
    pub signature: Vec<u8>,
    pub timestamp: i64,
}

impl Clone for SecurityRequest {
    fn clone(&self) -> (r: Self)
        ensures
            r.protocol_version == self.protocol_version,
            r.nonce == self.nonce,
            r.operation == self.operation,
            r.region_id == self.region_id,
            r.wallet_id == self.wallet_id,
            r.target_wallet == self.target_wallet,
            r.payload@ == self.payload@,
            r.parent_event_hashes@ == self.parent_event_hashes@,
            r.signature@ == self.signature@,
            r.timestamp == self.timestamp,
    {
        let target = match &self.target_wallet {
            Some(w) => Some(w.clone()),
            None => None,
        };
        let payload = self.payload.clone();
        assert(payload@ =~= self.payload@);
        let parents = self.parent_event_hashes.clone();
        assert(parents@ =~= self.parent_event_hashes@);
        let signature = self.signature.clone();
        assert(signature@ =~= self.signature@);
        SecurityRequest {
            protocol_version: self.protocol_version,
            nonce: self.nonce.clone(),
            operation: self.operation.clone(),
            region_id: self.region_id.clone(),
            wallet_id: self.wallet_id.clone(),
            target_wallet: target,
            payload,
            parent_event_hashes: parents,
            signature,
            timestamp: self.timestamp,
        }
    }
}

impl SecurityRequest {
    /// The first structural problem of the request, if any.
    pub open spec fn problem(&self) -> Option<Seq<char>> {
        if self.protocol_version == 0 {
            Some("protocol_version must be greater than zero"@)
        } else if is_blank_spec(self.nonce.0@) {
            Some("nonce is empty"@)
        } else if is_blank_spec(self.wallet_id.0@) {
            Some("wallet_id is empty"@)
        } else if is_blank_spec(self.region_id.0@) {
            Some("region_id is empty"@)
        } else if self.timestamp <= 0 {
            Some("timestamp must be positive"@)
        } else {
            None
        }
    }

    /// Checks the version, the identifiers and the timestamp; the message
    /// names the first failure.
    pub fn validate_basic(&self) -> (r: Result<(), String>)
        ensures
            match r {
                Ok(()) => self.problem() is None,
                Err(m) => self.problem() == Some(m@),
            },
    {
        if self.protocol_version == 0 {
            return Err(String::from_str("protocol_version must be greater than zero"));
        }
        if is_blank(self.nonce.0.as_str()) {
            return Err(String::from_str("nonce is empty"));
        }
        if is_blank(self.wallet_id.0.as_str()) {
            return Err(String::from_str("wallet_id is empty"));
        }
        if is_blank(self.region_id.0.as_str()) {
            return Err(String::from_str("region_id is empty"));
        }
        if self.timestamp <= 0 {
            return Err(String::from_str("timestamp must be positive"));
        }
        Ok(())
    }
}

/// The record of an accepted request.
#[derive(Debug)]
pub struct SecurityEvent {
    pub event_id: EventId,
    pub protocol_version: u32,
    pub parent_hashes: Vec<String>,
    pub region_id: RegionId,
    pub entity_id: WalletId,
    pub operation: OperationKind,
    pub request_hash: String,
    pub payload_hash: String,
    pub auth_ratio: Ratio,
    pub attestation_score: Ratio,
    pub drain_applied: Ratio,
    pub certified: bool,
    pub actor_pk: Vec<u8>,
    pub nonce: Nonce,
    pub timestamp: i64,
    pub signature: Vec<u8>,
    pub event_hash: String,
}

impl Clone for SecurityEvent {
    fn clone(&self) -> (r: Self)
        ensures
            r.same_record(*self),
    {
        let parents = self.parent_hashes.clone();
        assert(parents@ =~= self.parent_hashes@);
        let actor_pk = self.actor_pk.clone();
        assert(actor_pk@ =~= self.actor_pk@);
        let signature = self.signature.clone();
        assert(signature@ =~= self.signature@);
        SecurityEvent {
            event_id: self.event_id.clone(),
            protocol_version: self.protocol_version,
            parent_hashes: parents,
            region_id: self.region_id.clone(),
            entity_id: self.entity_id.clone(),
            operation: self.operation.clone(),
            request_hash: self.request_hash.clone(),
            payload_hash: self.payload_hash.clone(),
            auth_ratio: self.auth_ratio,
            attestation_score: self.attestation_score,
            drain_applied: self.drain_applied,
            certified: self.certified,
            actor_pk,
            nonce: self.nonce.clone(),
            timestamp: self.timestamp,
            signature,
            event_hash: self.event_hash.clone(),
        }
    }
}

impl SecurityEvent {
    /// Both events hold the same values, field by field.
    pub open spec fn same_record(self, other: SecurityEvent) -> bool {
        &&& self.event_id == other.event_id
        &&& self.protocol_version == other.protocol_version
        &&& self.parent_hashes@ == other.parent_hashes@
        &&& self.region_id == other.region_id
        &&& self.entity_id == other.entity_id
        &&& self.operation == other.operation
        &&& self.request_hash == other.request_hash
        &&& self.payload_hash == other.payload_hash
        &&& self.auth_ratio == other.auth_ratio
        &&& self.attestation_score == other.attestation_score
        &&& self.drain_applied == other.drain_applied
        &&& self.certified == other.certified
        &&& self.actor_pk@ == other.actor_pk@
        &&& self.nonce == other.nonce
        &&& self.timestamp == other.timestamp
        &&& self.signature@ == other.signature@
        &&& self.event_hash == other.event_hash
    }
}

/// The answer to a request: accepted with its event, or refused with a reason.
#[derive(Debug, Clone)]
pub struct SecurityDecision {
    pub accepted: bool,
    pub reason: Option<String>,
    pub event: Option<SecurityEvent>,
}

/// The limits and switches that the policy engine enforces.
#[derive(Debug, Clone, Copy)]
pub struct PolicyEnvelope {
    pub allow_create: bool,
    pub allow_transfer: bool,
    pub allow_projection: bool,
    pub allow_cross_region: bool,
    pub allow_query: bool,
    pub allow_empty_payloads: bool,
    pub required_protocol_version: u32,
    pub min_auth_ratio: Ratio,
    pub min_attestation_score: Ratio,
    pub max_drain_rate: Ratio,
    pub max_payload_bytes: usize,
    pub max_parent_hashes: usize,
    pub max_nonce_len: usize,
    pub max_signature_bytes: usize,
    pub max_clock_skew_secs: i64,
}

/// `0.65`.
pub const DEFAULT_MIN_AUTH_RATIO_BITS: u64 = 0x3fe4_cccc_cccc_cccd;

/// `0.50`.
pub const DEFAULT_MIN_ATTESTATION_SCORE_BITS: u64 = 0x3fe0_0000_0000_0000;

/// `0.20`.
pub const DEFAULT_MAX_DRAIN_RATE_BITS: u64 = 0x3fc9_9999_9999_999a;

impl PolicyEnvelope {
    /// The conservative defaults: every operation allowed but cross-region
    /// work, version 1, auth ratio 0.65, attestation score 0.50, drain rate
    /// 0.20, 16 KiB payloads, 32 parents, 128-byte nonces and signatures,
    /// five minutes of clock skew.
    pub open spec fn default_spec() -> PolicyEnvelope {
        PolicyEnvelope {
            allow_create: true,
            allow_transfer: true,
            allow_projection: true,
            allow_cross_region: false,
            allow_query: true,
            allow_empty_payloads: true,
            required_protocol_version: 1,
            min_auth_ratio: Ratio { bits: DEFAULT_MIN_AUTH_RATIO_BITS },
            min_attestation_score: Ratio { bits: DEFAULT_MIN_ATTESTATION_SCORE_BITS },
            max_drain_rate: Ratio { bits: DEFAULT_MAX_DRAIN_RATE_BITS },
            max_payload_bytes: 16384,
            max_parent_hashes: 32,
            max_nonce_len: 128,
            max_signature_bytes: 128,
            max_clock_skew_secs: 300,
        }
    }
}

impl Default for PolicyEnvelope {
    fn default() -> (r: Self)
        ensures
            r == PolicyEnvelope::default_spec(),
    {
        PolicyEnvelope {
            allow_create: true,
            allow_transfer: true,
            allow_projection: true,
            allow_cross_region: false,
            allow_query: true,
            allow_empty_payloads: true,
            required_protocol_version: 1,
            min_auth_ratio: Ratio::from_bits(DEFAULT_MIN_AUTH_RATIO_BITS),
            min_attestation_score: Ratio::from_bits(DEFAULT_MIN_ATTESTATION_SCORE_BITS),
            max_drain_rate: Ratio::from_bits(DEFAULT_MAX_DRAIN_RATE_BITS),
            max_payload_bytes: 16 * 1024,
            max_parent_hashes: 32,
            max_nonce_len: 128,
            max_signature_bytes: 128,
            max_clock_skew_secs: 300,
        }
    }
}

/// A third party's statement about a wallet, with a score in `[0, 1]`.
#[derive(Debug)]
pub struct Attestation {
    pub issuer: String,
    pub subject_wallet: WalletId,
    pub score: Ratio,
    pub note: String,
    pub issued_at: i64,
}

impl Clone for Attestation {
    fn clone(&self) -> (r: Self)
        ensures
            r == *self,
    {
        Attestation {
            issuer: self.issuer.clone(),
            subject_wallet: self.subject_wallet.clone(),
            score: self.score,
            note: self.note.clone(),
            issued_at: self.issued_at,
        }
    }
}

/// A request with its context and its attestations.
#[derive(Debug, Clone)]
pub struct SecurityEnvelope {
    pub request: SecurityRequest,
    pub context: SecurityContext,
    pub attestations: Vec<Attestation>,
}

/// A signing key with the verifying key that belongs to it.
#[derive(Debug, Clone)]
pub struct SecurityKeyPair {
    pub signing_key: SigningKey,
    pub verifying_key: VerifyingKey,
}

impl SecurityKeyPair {
    /// Pairs `signing_key` with the verifying key derived from it.
    pub fn from_signing_key(signing_key: SigningKey) -> (pair: SecurityKeyPair)
        ensures
            pair.signing_key@ == signing_key@,
            pair.verifying_key@ == crate::crypto::ed25519_public_key(signing_key@),
    {
        let verifying_key = signing_key.verifying_key();
        SecurityKeyPair { signing_key, verifying_key }
    }
}

/// The signature held by `bytes`: exactly 64 bytes are accepted, and any
/// other length is refused with the Ed25519 crate's message.
pub fn signature_from_bytes(bytes: &[u8]) -> (r: Result<Signature, String>)
    ensures
        r is Ok <==> bytes@.len() == 64,
        r matches Ok(s) ==> s@ == bytes@,
        r matches Err(m) ==> m@ == "signature error"@,
{
    Signature::parse(bytes)
}

} // verus!
