//! Security boundary for the Vector Network.
//!
//! Before any state transition reaches the kernel, the library checks identity
//! binding, request integrity, replay safety and policy compliance, and emits
//! an append-only audit record of what it accepted.
//!
//! - `ratio`: scores and thresholds by their binary64 encoding
//! - `text`: whitespace, decimal and hexadecimal renderings
//! - `types`: requests, contexts, events and policy envelopes
//! - `crypto`: canonical encodings, Ed25519 signatures, BLAKE3 digests
//! - `policy`: enforcement of request, region and payload rules
//! - `replay`: in-memory replay guard
//! - `attestation`: subject binding and score thresholds of attestations
//! - `storage`: event and replay stores
//! - `audit`: append-only audit trail
//! - `engine`: the validation pipeline
//! - `config`: service configuration

pub mod attestation;
pub mod audit;
pub mod config;
pub mod crypto;
pub mod engine;
pub mod errors;
pub mod policy;
pub mod ratio;
pub mod replay;
pub mod storage;
pub mod text;
pub mod types;

pub use attestation::{AttestationScore, AttestationSet, AttestationSummary};
pub use audit::{AuditLog, AuditSink};
pub use config::SecurityConfig;
pub use crypto::{generate_signing_key, sign_request, verifying_key_bytes, Signature, SigningKey, VerifyingKey};
pub use engine::{SecurityEngine, SecurityEngineBuilder};
pub use errors::{SecurityError, SecurityResult};
pub use policy::{PolicyEngine, PolicyRuleSet};
pub use ratio::Ratio;
pub use replay::ReplayGuard;
pub use storage::{
    EventStore, FileEventStore, FileReplayStore, MemoryEventStore, MemoryReplayStore,
    ReplaySnapshot, ReplayStore,
};
pub use types::{
    signature_from_bytes, Attestation, EventId, Nonce, OperationKind, PolicyEnvelope, RegionId,
    SecurityContext, SecurityDecision, SecurityEnvelope, SecurityEvent, SecurityKeyPair,
    SecurityRequest, WalletId,
};
