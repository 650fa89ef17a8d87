//! The validation pipeline: policy, identity binding, attestations, replay,
//! signature, event construction, recording.
use crate::attestation::{subject_verdict, AttestationSet};
use crate::audit::{AuditLog, AuditSink};
use crate::crypto::{
    canonical_event, canonical_request, domain_hash, domain_input, ed25519_key_decodes,
    ed25519_verifies, framed, framed_text, framed_texts, hash_bytes, hash_event, hash_request,
    hex_digest, i64_be, public_key_from_bytes, u32_be, u64_be, verify_request_signature,
};
use crate::errors::{error_of, ErrorView, SecurityError, SecurityResult};
use crate::policy::{drain_rate_spec, policy_verdict, PolicyEngine};
use crate::ratio::Ratio;
use crate::replay::DEFAULT_REPLAY_CAPACITY;
use crate::storage::{appended, EventStore, MemoryEventStore, MemoryReplayStore, ReplayStore};
use crate::text::{push_signed_decimal, push_text, signed_decimal};
use crate::types::{
    EventId, SecurityContext, SecurityDecision, SecurityEnvelope, SecurityEvent,
    SecurityRequest,
};
use vstd::prelude::*;
use vstd::utf8::encode_utf8;

verus! {

/// `0.50`, the attestation threshold of a new engine.
pub const DEFAULT_ATTESTATION_THRESHOLD_BITS: u64 = 0x3fe0_0000_0000_0000;

/// The domain under which event identifiers are hashed.
pub open spec fn event_id_domain() -> Seq<char> {
    "vector-security-event-id"@
}

/// The text hashed into an event identifier:
/// `nonce:wallet:region:timestamp`.
pub open spec fn event_id_text(ctx: SecurityContext, req: SecurityRequest) -> Seq<char> {
    req.nonce.0@ + ":"@ + ctx.wallet_id.0@ + ":"@ + ctx.region_id.0@ + ":"@ + signed_decimal(
        req.timestamp as int,
    )
}

/// The identifier of the event recorded for `req` in `ctx`.
pub open spec fn event_id_for(ctx: SecurityContext, req: SecurityRequest) -> Seq<char> {
    hex_digest(domain_input(event_id_domain(), encode_utf8(event_id_text(ctx, req))))
}

/// The score that a non-empty attestation list must reach for certification.
pub open spec fn certification_threshold(threshold: Ratio, policy: PolicyEngine) -> Ratio {
    threshold.spec_max(policy.rules.envelope.min_attestation_score)
}

/// The error of the checks made before the replay store is consulted, if
/// any: policy, wallet binding, region binding, attestation subjects, and
/// the attestation score of a non-empty list against the engine threshold.
pub open spec fn admission_verdict(
    policy: PolicyEngine,
    threshold: Ratio,
    envelope: SecurityEnvelope,
    score: Ratio,
) -> Option<ErrorView> {
    let ctx = envelope.context;
    let req = envelope.request;
    let env = policy.rules.envelope;
    if policy_verdict(env, ctx, req) is Some {
        policy_verdict(env, ctx, req)
    } else if req.wallet_id.0@ != ctx.wallet_id.0@ {
        Some(
            ErrorView::PolicyViolation(
                "wallet mismatch: request="@ + req.wallet_id.0@ + " context="@ + ctx.wallet_id.0@,
            ),
        )
    } else if req.region_id.0@ != ctx.region_id.0@ && !env.allow_cross_region {
        Some(
            ErrorView::PolicyViolation(
                "region mismatch: request="@ + req.region_id.0@ + " context="@ + ctx.region_id.0@,
            ),
        )
    } else if subject_verdict(envelope.attestations@, ctx.wallet_id.0@) is Some {
        subject_verdict(envelope.attestations@, ctx.wallet_id.0@)
    } else if envelope.attestations@.len() > 0 && score.spec_lt(threshold) {
        Some(ErrorView::AttestationBelowThreshold { got: score, required: threshold })
    } else {
        None
    }
}

/// The error of the checks made after the nonce was found fresh, if any:
/// the public key, the signature length, the signature, the auth ratio
/// against the certification threshold, and the attestation score of a
/// non-empty list against the certification score.
pub open spec fn acceptance_verdict(
    policy: PolicyEngine,
    threshold: Ratio,
    envelope: SecurityEnvelope,
    score: Ratio,
) -> Option<ErrorView> {
    let ctx = envelope.context;
    let req = envelope.request;
    if !ed25519_key_decodes(ctx.verified_public_key@) {
        Some(ErrorView::InvalidRequest("invalid public key bytes"@))
    } else if req.signature@.len() != 64 {
        Some(ErrorView::InvalidSignatureLength)
    } else if !ed25519_verifies(
        ctx.verified_public_key@,
        canonical_request(req),
        req.signature@,
    ) {
        Some(ErrorView::InvalidSignature)
    } else if ctx.auth_ratio.spec_lt(ctx.cert_threshold) {
        Some(ErrorView::AuthBelowThreshold { got: ctx.auth_ratio, required: ctx.cert_threshold })
    } else if envelope.attestations@.len() > 0 && !certification_threshold(
        threshold,
        policy,
    ).spec_le(score) {
        Some(
            ErrorView::AttestationBelowThreshold {
                got: score,
                required: certification_threshold(threshold, policy),
            },
        )
    } else {
        None
    }
}

/// The canonical bytes of the event recorded for an accepted envelope.
pub open spec fn accepted_event_bytes(
    policy: PolicyEngine,
    envelope: SecurityEnvelope,
    score: Ratio,
) -> Seq<u8> {
    let ctx = envelope.context;
    let req = envelope.request;
    u32_be(req.protocol_version) + framed_text(event_id_for(ctx, req)) + framed_texts(
        req.parent_event_hashes@,
    ) + framed_text(ctx.region_id.0@) + framed_text(ctx.wallet_id.0@) + framed_text(
        req.operation.label_spec(),
    ) + framed_text(hex_digest(canonical_request(req))) + framed_text(hex_digest(req.payload@))
        + u64_be(ctx.auth_ratio.bits) + u64_be(score.bits) + u64_be(
        drain_rate_spec(policy.rules.envelope, req.operation).bits,
    ) + seq![1u8] + framed(ctx.verified_public_key@) + framed_text(req.nonce.0@) + i64_be(
        req.timestamp,
    ) + framed(req.signature@)
}

/// The event hash of the event recorded for an accepted envelope.
pub open spec fn accepted_event_hash(
    policy: PolicyEngine,
    envelope: SecurityEnvelope,
    score: Ratio,
) -> Seq<char> {
    hex_digest(accepted_event_bytes(policy, envelope, score))
}

/// `ev` is the event recorded for `envelope` with attestation score `score`.
pub open spec fn is_accepted_event(
    ev: SecurityEvent,
    policy: PolicyEngine,
    envelope: SecurityEnvelope,
    score: Ratio,
) -> bool {
    let ctx = envelope.context;
    let req = envelope.request;
    &&& ev.event_id.0@ == event_id_for(ctx, req)
    &&& ev.protocol_version == req.protocol_version
    &&& ev.parent_hashes@ == req.parent_event_hashes@
    &&& ev.region_id == ctx.region_id
    &&& ev.entity_id == ctx.wallet_id
    &&& ev.operation == req.operation
    &&& ev.request_hash@ == hex_digest(canonical_request(req))
    &&& ev.payload_hash@ == hex_digest(req.payload@)
    &&& ev.auth_ratio == ctx.auth_ratio
    &&& ev.attestation_score == score
    &&& ev.drain_applied == drain_rate_spec(policy.rules.envelope, req.operation)
    &&& ev.certified
    &&& ev.actor_pk@ == ctx.verified_public_key@
    &&& ev.nonce == req.nonce
    &&& ev.timestamp == req.timestamp
    &&& ev.signature@ == req.signature@
    &&& ev.event_hash@ == accepted_event_hash(policy, envelope, score)
    &&& canonical_event(ev) == accepted_event_bytes(policy, envelope, score)
}

/// The security pipeline: validates envelopes against a policy and records
/// the accepted ones in an event store, an audit sink and a replay store.
#[derive(Debug)]
pub struct SecurityEngine<R, E, A> {
    policy: PolicyEngine,
    replay: R,
    audit: A,
    events: E,
    attestation_threshold: Ratio,
    node_label: String,
}

/// Assembles a `SecurityEngine` with chosen stores.
#[derive(Debug)]
pub struct SecurityEngineBuilder<R, E, A> {
    policy: PolicyEngine,
    replay: R,
    audit: A,
    events: E,
    attestation_threshold: Ratio,
    node_label: String,
}

impl SecurityEngine<MemoryReplayStore, MemoryEventStore, AuditLog> {
    /// An engine with in-memory stores and the default threshold.
    pub fn new(policy: PolicyEngine) -> (e: Self)
        ensures
            e.policy_spec() == policy,
            e.threshold() == (Ratio { bits: DEFAULT_ATTESTATION_THRESHOLD_BITS }),
            e.label() == "local-node"@,
            e.replay_store_spec()@.nonces.len() == 0,
            e.replay_store_spec()@.event_hashes.len() == 0,
            e.replay_store_spec()@.capacity == DEFAULT_REPLAY_CAPACITY,
            e.event_store_spec()@.len() == 0,
            e.audit_sink_spec()@.len() == 0,
    {
        Self::builder(policy).build()
    }

    /// A builder with in-memory stores, the default threshold and the label
    /// `local-node`.
    pub fn builder(policy: PolicyEngine) -> (b: SecurityEngineBuilder<
        MemoryReplayStore,
        MemoryEventStore,
        AuditLog,
    >)
        ensures
            b.build_spec().policy_spec() == policy,
            b.build_spec().threshold() == (Ratio { bits: DEFAULT_ATTESTATION_THRESHOLD_BITS }),
            b.build_spec().label() == "local-node"@,
            b.build_spec().replay_store_spec()@.nonces.len() == 0,
            b.build_spec().replay_store_spec()@.event_hashes.len() == 0,
            b.build_spec().replay_store_spec()@.capacity == DEFAULT_REPLAY_CAPACITY,
            b.build_spec().event_store_spec()@.len() == 0,
            b.build_spec().audit_sink_spec()@.len() == 0,
    {
        SecurityEngineBuilder::new(policy)
    }
}

impl<R: ReplayStore, E: EventStore, A: AuditSink> SecurityEngine<R, E, A> {
    /// The policy engine.
    pub closed spec fn policy_spec(&self) -> PolicyEngine {
        self.policy
    }

    /// The threshold that a non-empty attestation list must reach.
    pub closed spec fn threshold(&self) -> Ratio {
        self.attestation_threshold
    }

    /// The label of the node, for logs.
    pub closed spec fn label(&self) -> Seq<char> {
        self.node_label@
    }

    /// The replay store.
    pub closed spec fn replay_store_spec(&self) -> R {
        self.replay
    }

    /// The event store.
    pub closed spec fn event_store_spec(&self) -> E {
        self.events
    }

    /// The audit sink.
    pub closed spec fn audit_sink_spec(&self) -> A {
        self.audit
    }

    /// The replay store.
    pub fn replay_store(&self) -> (r: &R)
        ensures
            *r == self.replay_store_spec(),
    {
        &self.replay
    }

    /// The event store.
    pub fn event_store(&self) -> (e: &E)
        ensures
            *e == self.event_store_spec(),
    {
        &self.events
    }

    /// The audit sink.
    pub fn audit_sink(&self) -> (a: &A)
        ensures
            *a == self.audit_sink_spec(),
    {
        &self.audit
    }

    /// The same engine with the attestation threshold `threshold`, clamped
    /// to `[0, 1]`.
    pub fn with_attestation_threshold(self, threshold: Ratio) -> (e: Self)
        ensures
            e.threshold() == threshold.spec_clamp_unit(),
            e.policy_spec() == self.policy_spec(),
            e.label() == self.label(),
            e.replay_store_spec() == self.replay_store_spec(),
            e.event_store_spec() == self.event_store_spec(),
            e.audit_sink_spec() == self.audit_sink_spec(),
    {
        let mut e = self;
        e.attestation_threshold = threshold.clamp_unit();
        e
    }

    /// The policy engine.
    pub fn policy(&self) -> (p: &PolicyEngine)
        ensures
            *p == self.policy_spec(),
    {
        &self.policy
    }

    /// The label of the node.
    pub fn node_label(&self) -> (l: &str)
        ensures
            l@ == self.label(),
    {
        self.node_label.as_str()
    }

    /// Copies of the events in the audit sink, oldest first.
    pub fn audit_log(&self) -> (events: Vec<SecurityEvent>)
        ensures
            self.audit_sink_spec().modelled() ==> crate::storage::same_records(
                events@,
                self.audit_sink_spec().entries(),
            ),
    {
        self.audit.list()
    }

    /// A refusal with the given reason.
    pub fn reject(&self, reason: &str) -> (d: SecurityDecision)
        ensures
            !d.accepted,
            d.reason matches Some(m) && m@ == reason@,
            d.event is None,
    {
        SecurityDecision { accepted: false, reason: Some(String::from_str(reason)), event: None }
    }

    /// What `validate` makes of `envelope`, whose attestations have the mean
    /// clamped score `score`, in this engine: the engine `after` and the
    /// result `r`.
    ///
    /// The policy, threshold and label never change, nor whether the stores
    /// are modelled. An envelope refused before the replay store is
    /// consulted (`admission_verdict`) gets that error and changes nothing.
    /// With modelled stores: recorded and audited events are only ever
    /// appended to; the engine changes only for an envelope that passes
    /// every check and whose nonce and hash are fresh; a nonce or event hash
    /// already held is refused, as `ReplayDetected` when the replay store is
    /// reliable, and changes nothing; an envelope refused by
    /// `acceptance_verdict` gets that error and changes nothing when the
    /// replay store is reliable; an envelope that passes every check is
    /// accepted when the stores are reliable. An accepted envelope yields its certified event, which is
    /// appended to the event store and the audit sink, and whose nonce and
    /// hash the replay store then holds.
    pub open spec fn validation_step(
        self,
        after: Self,
        envelope: SecurityEnvelope,
        score: Ratio,
        r: SecurityResult<SecurityDecision>,
    ) -> bool {
        let policy = self.policy_spec();
        let threshold = self.threshold();
        let admitted = admission_verdict(policy, threshold, envelope, score);
        let accepted = acceptance_verdict(policy, threshold, envelope, score);
        let nonce = envelope.request.nonce.0@;
        let hash = accepted_event_hash(policy, envelope, score);
        let replay = self.replay_store_spec();
        let modelled = replay.modelled() && self.event_store_spec().modelled()
            && self.audit_sink_spec().modelled();
        let reliable = replay.reliable() && self.event_store_spec().reliable();
        &&& after.policy_spec() == policy
        &&& after.threshold() == threshold
        &&& after.label() == self.label()
        &&& after.replay_store_spec().modelled() == replay.modelled()
        &&& after.event_store_spec().modelled() == self.event_store_spec().modelled()
        &&& after.audit_sink_spec().modelled() == self.audit_sink_spec().modelled()
        &&& replay.modelled() ==> after.replay_store_spec().retains() == replay.retains()
        &&& replay.modelled() ==> after.replay_store_spec().reliable() == replay.reliable()
        &&& admitted is Some ==> error_of(r) == admitted && after == self
        &&& r is Ok ==> admitted is None && accepted is None
        &&& modelled ==> {
            &&& self.event_store_spec().recorded().is_prefix_of(after.event_store_spec().recorded())
            &&& self.audit_sink_spec().entries().is_prefix_of(after.audit_sink_spec().entries())
            &&& after != self ==> admitted is None && accepted is None && !replay.holds_nonce(nonce)
                && !replay.holds_event_hash(hash)
            &&& admitted is None && replay.holds_nonce(nonce) ==> r is Err && after == self
            &&& admitted is None && replay.holds_nonce(nonce) && replay.reliable() ==> error_of(r)
                == Some(ErrorView::ReplayDetected)
            &&& admitted is None && !replay.holds_nonce(nonce) && accepted is Some
                && replay.reliable() ==> error_of(r) == accepted && after == self
            &&& admitted is None && accepted is None && replay.holds_event_hash(hash)
                ==> r is Err && after == self
            &&& admitted is None && accepted is None && !replay.holds_nonce(nonce)
                && replay.holds_event_hash(hash) && replay.reliable() ==> error_of(r)
                == Some(ErrorView::ReplayDetected)
            &&& admitted is None && accepted is None && !replay.holds_nonce(nonce)
                && !replay.holds_event_hash(hash) && reliable ==> r is Ok
            &&& r is Ok ==> !replay.holds_nonce(nonce) && !replay.holds_event_hash(hash)
        }
        &&& r matches Ok(d) ==> {
            &&& d.accepted
            &&& d.reason is None
            &&& d.event matches Some(ev) && {
                &&& is_accepted_event(ev, policy, envelope, score)
                &&& modelled ==> appended(
                    self.event_store_spec().recorded(),
                    after.event_store_spec().recorded(),
                    ev,
                )
                &&& modelled ==> appended(self.audit_sink_spec().entries(), after.audit_sink_spec().entries(), ev)
            }
            &&& modelled ==> after.replay_store_spec().settled()
            &&& modelled && replay.retains() && replay.settled()
                ==> after.replay_store_spec().holds_nonce(nonce)
                && after.replay_store_spec().holds_event_hash(hash)
        }
    }

    /// Validates `envelope`, whose attestations have the mean clamped score
    /// `attestation_score`, and records it when it is accepted.
    ///
    /// The checks come in this order: the policy, the wallet and region
    /// binding, the attestation subjects and score (`admission_verdict`);
    /// the nonce against the replay store; the public key, the signature, the
    /// auth ratio against the certification threshold and the attestation
    /// score against the certification score (`acceptance_verdict`); the
    /// event hash against the replay store. The first that fails refuses the
    /// envelope with its error. An accepted envelope yields a certified
    /// event, which is appended to the event store and the audit sink, and
    /// whose nonce and hash are then remembered by the replay store.
    pub fn validate(&mut self, envelope: &SecurityEnvelope, attestation_score: Ratio) -> (r:
        SecurityResult<SecurityDecision>)
        ensures
            old(self).validation_step(*final(self), *envelope, attestation_score, r),
    {
        match self.check_admission(envelope, attestation_score) {
            Ok(()) => {},
            Err(e) => return Err(e),
        }
        match self.validate_replay(&envelope.request) {
            Ok(()) => {},
            Err(e) => return Err(e),
        }
        let event = match self.certify(envelope, attestation_score) {
            Ok(ev) => ev,
            Err(e) => return Err(e),
        };
        match self.validate_replay_hash(event.event_hash.as_str()) {
            Ok(()) => {},
            Err(e) => return Err(e),
        }
        match self.record_accepted(&envelope.request, &event) {
            Ok(()) => {},
            Err(e) => return Err(e),
        }
        Ok(SecurityDecision { accepted: true, reason: None, event: Some(event) })
    }

    /// Appends an accepted event to the event store and the audit sink, then
    /// remembers its nonce and hash in the replay store.
    fn record_accepted(&mut self, req: &SecurityRequest, event: &SecurityEvent) -> (r:
        SecurityResult<()>)
        ensures
            final(self).policy == old(self).policy,
            final(self).attestation_threshold == old(self).attestation_threshold,
            final(self).node_label == old(self).node_label,
            final(self).replay.modelled() == old(self).replay.modelled(),
            final(self).events.modelled() == old(self).events.modelled(),
            final(self).audit.modelled() == old(self).audit.modelled(),
            old(self).replay.modelled() ==> final(self).replay.retains() == old(self).replay.retains(),
            old(self).replay.modelled() ==> final(self).replay.reliable() == old(self).replay.reliable(),
            r is Ok && old(self).replay.modelled() ==> final(self).replay.settled(),
            old(self).events.modelled() ==> old(self).events.recorded().is_prefix_of(
                final(self).events.recorded(),
            ),
            old(self).audit.modelled() ==> old(self).audit.entries().is_prefix_of(
                final(self).audit.entries(),
            ),
            old(self).events.modelled() && old(self).events.reliable() && old(self).replay.modelled()
                && old(self).replay.reliable() ==> r is Ok,
            r is Ok && old(self).events.modelled() ==> appended(
                old(self).events.recorded(),
                final(self).events.recorded(),
                *event,
            ),
            r is Ok && old(self).audit.modelled() ==> appended(
                old(self).audit.entries(),
                final(self).audit.entries(),
                *event,
            ),
            r is Ok && old(self).replay.modelled() && old(self).replay.retains()
                && old(self).replay.settled() ==> final(self).replay.holds_nonce(req.nonce.0@)
                && final(self).replay.holds_event_hash(event.event_hash@),
    {
        match self.events.append(event) {
            Ok(()) => {},
            Err(e) => return Err(e),
        }
        let copy = event.clone();
        let ghost before = self.audit.entries();
        self.audit.append(copy);
        proof {
            if old(self).audit.modelled() {
                assert(self.audit.entries().take(before.len() as int) =~= before);
            }
        }
        self.record_seen(req, event.event_hash.as_str())
    }

    /// The checks made before the replay store is consulted: the policy, the
    /// wallet and region binding, the attestation subjects and the score of
    /// a non-empty attestation list against the engine threshold.
    fn check_admission(&self, envelope: &SecurityEnvelope, attestation_score: Ratio) -> (r: SecurityResult<
        (),
    >)
        ensures
            error_of(r) == admission_verdict(
                self.policy,
                self.attestation_threshold,
                *envelope,
                attestation_score,
            ),
    {
        let ctx = &envelope.context;
        let req = &envelope.request;
        match self.policy.validate(ctx, req) {
            Ok(()) => {},
            Err(e) => return Err(e),
        }
        match self.validate_key_binding(ctx, req) {
            Ok(()) => {},
            Err(e) => return Err(e),
        }
        self.validate_attestations(ctx, envelope, attestation_score)
    }

    /// The checks made once the nonce is found fresh (the public key, the
    /// signature, the auth ratio, the attestation score against the
    /// certification score) and, when they pass, the certified event with
    /// its hash filled in.
    fn certify(&self, envelope: &SecurityEnvelope, attestation_score: Ratio) -> (r:
        SecurityResult<SecurityEvent>)
        requires
            admission_verdict(self.policy, self.attestation_threshold, *envelope, attestation_score)
                is None,
        ensures
            error_of(r) == acceptance_verdict(
                self.policy,
                self.attestation_threshold,
                *envelope,
                attestation_score,
            ),
            r matches Ok(ev) ==> is_accepted_event(ev, self.policy, *envelope, attestation_score),
            r matches Ok(ev) ==> ev.event_hash@ == accepted_event_hash(
                self.policy,
                *envelope,
                attestation_score,
            ),
    {
        let ctx = &envelope.context;
        let req = &envelope.request;
        let verifying_key = match public_key_from_bytes(ctx.verified_public_key.as_slice()) {
            Ok(k) => k,
            Err(e) => return Err(e),
        };
        match verify_request_signature(&verifying_key, req) {
            Ok(()) => {},
            Err(e) => return Err(e),
        }

        let request_hash = match hash_request(req) {
            Ok(h) => h,
            Err(e) => return Err(e),
        };
        let payload_hash = hash_bytes(req.payload.as_slice());
        let drain_applied = self.policy.drain_rate_for(&req.operation);
        let required = self.attestation_threshold.max(
            &self.policy.envelope().min_attestation_score,
        );
        let attestation_gate = envelope.attestations.len() == 0 || required.le(&attestation_score);
        let certified = ctx.cert_threshold.le(&ctx.auth_ratio) && attestation_gate;

        if ctx.auth_ratio.lt(&ctx.cert_threshold) {
            return Err(
                SecurityError::AuthBelowThreshold {
                    got: ctx.auth_ratio,
                    required: ctx.cert_threshold,
                },
            );
        }
        if !attestation_gate {
            return Err(
                SecurityError::AttestationBelowThreshold { got: attestation_score, required },
            );
        }

        let mut event = Self::build_event(
            ctx,
            req,
            request_hash,
            payload_hash,
            attestation_score,
            drain_applied,
            certified,
        );
        let event_hash = match hash_event(&event) {
            Ok(h) => h,
            Err(e) => return Err(e),
        };
        event.event_hash = event_hash;
        Ok(event)
    }

    /// The request must come from the context's wallet, and from its region
    /// unless the policy allows cross-region work.
    fn validate_key_binding(&self, ctx: &SecurityContext, req: &SecurityRequest) -> (r:
        SecurityResult<()>)
        ensures
            req.wallet_id.0@ != ctx.wallet_id.0@ ==> error_of(r) == Some(
                ErrorView::PolicyViolation(
                    "wallet mismatch: request="@ + req.wallet_id.0@ + " context="@
                        + ctx.wallet_id.0@,
                ),
            ),
            req.wallet_id.0@ == ctx.wallet_id.0@ && req.region_id.0@ != ctx.region_id.0@
                && !self.policy.rules.envelope.allow_cross_region ==> error_of(r) == Some(
                ErrorView::PolicyViolation(
                    "region mismatch: request="@ + req.region_id.0@ + " context="@
                        + ctx.region_id.0@,
                ),
            ),
            req.wallet_id.0@ == ctx.wallet_id.0@ && (req.region_id.0@ == ctx.region_id.0@
                || self.policy.rules.envelope.allow_cross_region) ==> r is Ok,
    {
        if !(req.wallet_id.0 == ctx.wallet_id.0) {
            let mut m = String::from_str("wallet mismatch: request=");
            push_text(&mut m, req.wallet_id.0.as_str());
            push_text(&mut m, " context=");
            push_text(&mut m, ctx.wallet_id.0.as_str());
            return Err(SecurityError::PolicyViolation(m));
        }
        if !(req.region_id.0 == ctx.region_id.0) && !self.policy.envelope().allow_cross_region {
            let mut m = String::from_str("region mismatch: request=");
            push_text(&mut m, req.region_id.0.as_str());
            push_text(&mut m, " context=");
            push_text(&mut m, ctx.region_id.0.as_str());
            return Err(SecurityError::PolicyViolation(m));
        }
        Ok(())
    }

    /// Fails when the replay store holds the request nonce.
    fn validate_replay(&self, req: &SecurityRequest) -> (r: SecurityResult<()>)
        ensures
            self.replay.modelled() && self.replay.holds_nonce(req.nonce.0@) ==> r is Err,
            self.replay.modelled() && self.replay.holds_nonce(req.nonce.0@)
                && self.replay.reliable() ==> error_of(r) == Some(ErrorView::ReplayDetected),
            self.replay.modelled() && !self.replay.holds_nonce(req.nonce.0@)
                && self.replay.reliable() ==> r is Ok,
    {
        match self.replay.seen_nonce(req.nonce.0.as_str()) {
            Ok(true) => Err(SecurityError::ReplayDetected),
            Ok(false) => Ok(()),
            Err(e) => Err(e),
        }
    }

    /// Fails when the replay store holds the event hash.
    fn validate_replay_hash(&self, event_hash: &str) -> (r: SecurityResult<()>)
        ensures
            self.replay.modelled() && self.replay.holds_event_hash(event_hash@) ==> r is Err,
            self.replay.modelled() && self.replay.holds_event_hash(event_hash@)
                && self.replay.reliable() ==> error_of(r) == Some(ErrorView::ReplayDetected),
            self.replay.modelled() && !self.replay.holds_event_hash(event_hash@)
                && self.replay.reliable() ==> r is Ok,
    {
        match self.replay.seen_event_hash(event_hash) {
            Ok(true) => Err(SecurityError::ReplayDetected),
            Ok(false) => Ok(()),
            Err(e) => Err(e),
        }
    }

    /// Every attestation must be about the context's wallet, and a non-empty
    /// list must reach the engine threshold.
    fn validate_attestations(
        &self,
        ctx: &SecurityContext,
        envelope: &SecurityEnvelope,
        score: Ratio,
    ) -> (r: SecurityResult<()>)
        ensures
            subject_verdict(envelope.attestations@, ctx.wallet_id.0@) is Some ==> error_of(r)
                == subject_verdict(envelope.attestations@, ctx.wallet_id.0@),
            subject_verdict(envelope.attestations@, ctx.wallet_id.0@) is None ==> error_of(r) == (
            if envelope.attestations@.len() > 0 && score.spec_lt(self.attestation_threshold) {
                Some(
                    ErrorView::AttestationBelowThreshold {
                        got: score,
                        required: self.attestation_threshold,
                    },
                )
            } else {
                None
            }),
    {
        let set = AttestationSet::new(clone_attestations(&envelope.attestations));
        match set.validate_subject(&ctx.wallet_id) {
            Ok(()) => {},
            Err(e) => return Err(e),
        }
        if envelope.attestations.len() > 0 && score.lt(&self.attestation_threshold) {
            return Err(
                SecurityError::AttestationBelowThreshold {
                    got: score,
                    required: self.attestation_threshold,
                },
            );
        }
        Ok(())
    }

    /// Remembers the nonce and the event hash of an accepted request.
    fn record_seen(&mut self, req: &SecurityRequest, event_hash: &str) -> (r: SecurityResult<()>)
        ensures
            final(self).policy == old(self).policy,
            final(self).attestation_threshold == old(self).attestation_threshold,
            final(self).node_label == old(self).node_label,
            final(self).events == old(self).events,
            final(self).audit == old(self).audit,
            final(self).replay.modelled() == old(self).replay.modelled(),
            old(self).replay.modelled() ==> final(self).replay.retains() == old(self).replay.retains(),
            old(self).replay.modelled() ==> final(self).replay.reliable() == old(self).replay.reliable(),
            r is Ok && old(self).replay.modelled() ==> final(self).replay.settled(),
            old(self).replay.modelled() && old(self).replay.reliable() ==> r is Ok,
            old(self).replay.modelled() && r is Ok && old(self).replay.retains()
                && old(self).replay.settled() ==> final(self).replay.holds_nonce(req.nonce.0@)
                && final(self).replay.holds_event_hash(event_hash@),
    {
        match self.replay.remember_nonce(req.nonce.0.as_str()) {
            Ok(()) => {},
            Err(e) => return Err(e),
        }
        self.replay.remember_event_hash(event_hash)
    }

    /// The event for an accepted request, before its hash is filled in.
    fn build_event(
        ctx: &SecurityContext,
        req: &SecurityRequest,
        request_hash: String,
        payload_hash: String,
        attestation_score: Ratio,
        drain_applied: Ratio,
        certified: bool,
    ) -> (ev: SecurityEvent)
        ensures
            ev.event_id.0@ == event_id_for(*ctx, *req),
            ev.protocol_version == req.protocol_version,
            ev.parent_hashes@ == req.parent_event_hashes@,
            ev.region_id == ctx.region_id,
            ev.entity_id == ctx.wallet_id,
            ev.operation == req.operation,
            ev.request_hash == request_hash,
            ev.payload_hash == payload_hash,
            ev.auth_ratio == ctx.auth_ratio,
            ev.attestation_score == attestation_score,
            ev.drain_applied == drain_applied,
            ev.certified == certified,
            ev.actor_pk@ == ctx.verified_public_key@,
            ev.nonce == req.nonce,
            ev.timestamp == req.timestamp,
            ev.signature@ == req.signature@,
            ev.event_hash@ == Seq::<char>::empty(),
    {
        let mut text = req.nonce.0.clone();
        push_text(&mut text, ":");
        push_text(&mut text, ctx.wallet_id.0.as_str());
        push_text(&mut text, ":");
        push_text(&mut text, ctx.region_id.0.as_str());
        push_text(&mut text, ":");
        push_signed_decimal(&mut text, req.timestamp);
        let event_id = EventId(domain_hash("vector-security-event-id", text.as_str().as_bytes()));

        let parent_hashes = req.parent_event_hashes.clone();
        assert(parent_hashes@ =~= req.parent_event_hashes@);
        let actor_pk = ctx.verified_public_key.clone();
        assert(actor_pk@ =~= ctx.verified_public_key@);
        let signature = req.signature.clone();
        assert(signature@ =~= req.signature@);

        SecurityEvent {
            event_id,
            protocol_version: req.protocol_version,
            parent_hashes,
            region_id: ctx.region_id.clone(),
            entity_id: ctx.wallet_id.clone(),
            operation: req.operation.clone(),
            request_hash,
            payload_hash,
            auth_ratio: ctx.auth_ratio,
            attestation_score,
            drain_applied,
            certified,
            actor_pk,
            nonce: req.nonce.clone(),
            timestamp: req.timestamp,
            signature,
            event_hash: String::new(),
        }
    }
}

/// The event of an accepted envelope describes it: it is certified, its
/// region and entity are the context's region and wallet, its nonce and
/// timestamp the request's; its identifier is the domain hash of
/// `nonce:wallet:region:timestamp` over the values the event records; a
/// transfer or a projection records the engine's maximum drain rate; its
/// hash is the digest of its canonical bytes; and every attestation of the
/// envelope is about the context's wallet.
pub proof fn law_accepted_event_describes_the_envelope<
    R: ReplayStore,
    E: EventStore,
    A: AuditSink,
>(
    before: SecurityEngine<R, E, A>,
    after: SecurityEngine<R, E, A>,
    envelope: SecurityEnvelope,
    score: Ratio,
    r: SecurityResult<SecurityDecision>,
)
    requires
        before.validation_step(after, envelope, score, r),
        r is Ok,
    ensures
        r matches Ok(d) && d.event matches Some(ev) && {
            let ctx = envelope.context;
            let req = envelope.request;
            &&& ev.certified
            &&& ev.region_id.0@ == ctx.region_id.0@
            &&& ev.entity_id.0@ == ctx.wallet_id.0@
            &&& ev.nonce.0@ == req.nonce.0@
            &&& ev.timestamp == req.timestamp
            &&& ev.event_id.0@ == hex_digest(
                domain_input(
                    "vector-security-event-id"@,
                    encode_utf8(
                        ev.nonce.0@ + ":"@ + ev.entity_id.0@ + ":"@ + ev.region_id.0@ + ":"@
                            + signed_decimal(ev.timestamp as int),
                    ),
                ),
            )
            &&& (req.operation is Transfer || req.operation is Project) ==> ev.drain_applied
                == before.policy_spec().rules.envelope.max_drain_rate
            &&& ev.event_hash@ == hex_digest(canonical_event(ev))
            &&& forall|i: int|
                0 <= i < envelope.attestations@.len() ==> (#[trigger] envelope.attestations@[i]).subject_wallet.0@
                    == ctx.wallet_id.0@
        },
{
    let policy = before.policy_spec();
    let threshold = before.threshold();
    assert(admission_verdict(policy, threshold, envelope, score) is None);
    lemma_admitted(policy, threshold, envelope, score);
    crate::attestation::law_subject_binding(envelope.attestations@, envelope.context.wallet_id.0@);
}

/// A nonce is accepted at most once: once an envelope has been accepted,
/// any envelope with the same nonce is refused and changes nothing,
/// provided the stores are modelled and the replay store keeps what it
/// remembers (a positive capacity, no list above its bound). With a
/// reliable replay store, an envelope that passes the policy and binding
/// checks is refused as a replay.
pub proof fn law_replayed_nonce_is_refused<R: ReplayStore, E: EventStore, A: AuditSink>(
    first: SecurityEngine<R, E, A>,
    second: SecurityEngine<R, E, A>,
    third: SecurityEngine<R, E, A>,
    accepted: SecurityEnvelope,
    accepted_score: Ratio,
    r1: SecurityResult<SecurityDecision>,
    replayed: SecurityEnvelope,
    replayed_score: Ratio,
    r2: SecurityResult<SecurityDecision>,
)
    requires
        first.validation_step(second, accepted, accepted_score, r1),
        second.validation_step(third, replayed, replayed_score, r2),
        r1 is Ok,
        replayed.request.nonce.0@ == accepted.request.nonce.0@,
        first.replay_store_spec().modelled(),
        first.event_store_spec().modelled(),
        first.audit_sink_spec().modelled(),
        first.replay_store_spec().retains(),
        first.replay_store_spec().settled(),
    ensures
        r2 is Err,
        third == second,
        first.replay_store_spec().reliable() && admission_verdict(
            first.policy_spec(),
            first.threshold(),
            replayed,
            replayed_score,
        ) is None ==> error_of(r2) == Some(ErrorView::ReplayDetected),
{
}

/// An event is admitted at most once: once an envelope has been accepted,
/// any envelope whose event would have the same hash is refused, provided
/// the stores are modelled and the replay store keeps what it remembers.
/// With a reliable replay store, an envelope that passes every other check
/// is refused as a replay.
pub proof fn law_replayed_event_hash_is_refused<R: ReplayStore, E: EventStore, A: AuditSink>(
    first: SecurityEngine<R, E, A>,
    second: SecurityEngine<R, E, A>,
    third: SecurityEngine<R, E, A>,
    accepted: SecurityEnvelope,
    accepted_score: Ratio,
    r1: SecurityResult<SecurityDecision>,
    replayed: SecurityEnvelope,
    replayed_score: Ratio,
    r2: SecurityResult<SecurityDecision>,
)
    requires
        first.validation_step(second, accepted, accepted_score, r1),
        second.validation_step(third, replayed, replayed_score, r2),
        r1 is Ok,
        accepted_event_hash(first.policy_spec(), replayed, replayed_score) == accepted_event_hash(
            first.policy_spec(),
            accepted,
            accepted_score,
        ),
        first.replay_store_spec().modelled(),
        first.event_store_spec().modelled(),
        first.audit_sink_spec().modelled(),
        first.replay_store_spec().retains(),
        first.replay_store_spec().settled(),
    ensures
        r2 is Err,
        first.replay_store_spec().reliable() && admission_verdict(
            first.policy_spec(),
            first.threshold(),
            replayed,
            replayed_score,
        ) is None && acceptance_verdict(first.policy_spec(), first.threshold(), replayed, replayed_score)
            is None ==> error_of(r2) == Some(ErrorView::ReplayDetected),
{
}

/// With modelled stores, the stores and the audit sink change only for an
/// envelope that passed every check and whose nonce and event hash were
/// fresh: no event is recorded or audited, and nothing is remembered, for
/// a request that was not validated.
pub proof fn law_state_changes_only_for_validated_envelopes<
    R: ReplayStore,
    E: EventStore,
    A: AuditSink,
>(
    before: SecurityEngine<R, E, A>,
    after: SecurityEngine<R, E, A>,
    envelope: SecurityEnvelope,
    score: Ratio,
    r: SecurityResult<SecurityDecision>,
)
    requires
        before.validation_step(after, envelope, score, r),
        before.replay_store_spec().modelled(),
        before.event_store_spec().modelled(),
        before.audit_sink_spec().modelled(),
        after != before,
    ensures
        admission_verdict(before.policy_spec(), before.threshold(), envelope, score) is None,
        acceptance_verdict(before.policy_spec(), before.threshold(), envelope, score) is None,
        !before.replay_store_spec().holds_nonce(envelope.request.nonce.0@),
        !before.replay_store_spec().holds_event_hash(
            accepted_event_hash(before.policy_spec(), envelope, score),
        ),
{
}

/// Validation depends on nothing but the checks: two engines with the same
/// policy and threshold, modelled and reliable stores, and replay stores
/// that agree on the envelope's nonce and event hash give the same answer
/// to the same envelope: the same error, or acceptance with an event fixed
/// field by field by the policy, the envelope and the score. Two fresh
/// engines made by `SecurityEngine::new` with the same policy are such a pair.
pub proof fn law_validation_depends_only_on_the_checks<
    R: ReplayStore,
    E: EventStore,
    A: AuditSink,
>(
    first: SecurityEngine<R, E, A>,
    first_after: SecurityEngine<R, E, A>,
    second: SecurityEngine<R, E, A>,
    second_after: SecurityEngine<R, E, A>,
    envelope: SecurityEnvelope,
    score: Ratio,
    r1: SecurityResult<SecurityDecision>,
    r2: SecurityResult<SecurityDecision>,
)
    requires
        first.validation_step(first_after, envelope, score, r1),
        second.validation_step(second_after, envelope, score, r2),
        first.policy_spec() == second.policy_spec(),
        first.threshold() == second.threshold(),
        first.replay_store_spec().modelled() && second.replay_store_spec().modelled(),
        first.event_store_spec().modelled() && second.event_store_spec().modelled(),
        first.audit_sink_spec().modelled() && second.audit_sink_spec().modelled(),
        first.replay_store_spec().reliable() && second.replay_store_spec().reliable(),
        first.event_store_spec().reliable() && second.event_store_spec().reliable(),
        first.replay_store_spec().holds_nonce(envelope.request.nonce.0@)
            == second.replay_store_spec().holds_nonce(envelope.request.nonce.0@),
        first.replay_store_spec().holds_event_hash(
            accepted_event_hash(first.policy_spec(), envelope, score),
        ) == second.replay_store_spec().holds_event_hash(
            accepted_event_hash(first.policy_spec(), envelope, score),
        ),
    ensures
        error_of(r1) == error_of(r2),
        r1 matches Ok(d1) ==> d1.event matches Some(ev) && is_accepted_event(
            ev,
            first.policy_spec(),
            envelope,
            score,
        ),
        r2 matches Ok(d2) ==> d2.event matches Some(ev) && is_accepted_event(
            ev,
            first.policy_spec(),
            envelope,
            score,
        ),
{
}

/// Events are append-only: with modelled stores, validation never removes
/// or rewrites a recorded or audited event; what was there stays in front.
pub proof fn law_records_are_append_only<R: ReplayStore, E: EventStore, A: AuditSink>(
    before: SecurityEngine<R, E, A>,
    after: SecurityEngine<R, E, A>,
    envelope: SecurityEnvelope,
    score: Ratio,
    r: SecurityResult<SecurityDecision>,
)
    requires
        before.validation_step(after, envelope, score, r),
        before.replay_store_spec().modelled(),
        before.event_store_spec().modelled(),
        before.audit_sink_spec().modelled(),
    ensures
        before.event_store_spec().recorded().is_prefix_of(after.event_store_spec().recorded()),
        before.audit_sink_spec().entries().is_prefix_of(after.audit_sink_spec().entries()),
{
}

/// With modelled and reliable stores, acceptance is decided by the checks
/// alone: an envelope is accepted exactly when it passes every check and
/// its nonce and event hash are fresh.
pub proof fn law_acceptance_is_decided_by_the_checks<R: ReplayStore, E: EventStore, A: AuditSink>(
    before: SecurityEngine<R, E, A>,
    after: SecurityEngine<R, E, A>,
    envelope: SecurityEnvelope,
    score: Ratio,
    r: SecurityResult<SecurityDecision>,
)
    requires
        before.validation_step(after, envelope, score, r),
        before.replay_store_spec().modelled(),
        before.event_store_spec().modelled(),
        before.audit_sink_spec().modelled(),
        before.replay_store_spec().reliable(),
        before.event_store_spec().reliable(),
    ensures
        r is Ok <==> {
            &&& admission_verdict(before.policy_spec(), before.threshold(), envelope, score) is None
            &&& acceptance_verdict(before.policy_spec(), before.threshold(), envelope, score) is None
            &&& !before.replay_store_spec().holds_nonce(envelope.request.nonce.0@)
            &&& !before.replay_store_spec().holds_event_hash(
                accepted_event_hash(before.policy_spec(), envelope, score),
            )
        },
{
}

/// With modelled and reliable stores, a refused envelope changes nothing:
/// no event is recorded or audited and nothing is remembered.
pub proof fn law_refusal_changes_nothing<R: ReplayStore, E: EventStore, A: AuditSink>(
    before: SecurityEngine<R, E, A>,
    after: SecurityEngine<R, E, A>,
    envelope: SecurityEnvelope,
    score: Ratio,
    r: SecurityResult<SecurityDecision>,
)
    requires
        before.validation_step(after, envelope, score, r),
        r is Err,
        before.replay_store_spec().modelled(),
        before.event_store_spec().modelled(),
        before.audit_sink_spec().modelled(),
        before.replay_store_spec().reliable(),
        before.event_store_spec().reliable(),
    ensures
        after == before,
{
}

/// An accepted envelope passed every check: the policy permits the request,
/// the request comes from the context's wallet (and region, unless
/// cross-region work is allowed), every attestation is about that wallet,
/// the context's key is a valid Ed25519 key under which the request
/// signature verifies over the canonical request bytes, the auth ratio
/// reaches the certification threshold, and a non-empty attestation list
/// reaches the certification score. Its event is certified.
pub proof fn law_accepted_envelope_passed_every_check<R: ReplayStore, E: EventStore, A: AuditSink>(
    before: SecurityEngine<R, E, A>,
    after: SecurityEngine<R, E, A>,
    envelope: SecurityEnvelope,
    score: Ratio,
    r: SecurityResult<SecurityDecision>,
)
    requires
        before.validation_step(after, envelope, score, r),
        r is Ok,
    ensures
        ({
            let env = before.policy_spec().rules.envelope;
            let ctx = envelope.context;
            let req = envelope.request;
            &&& policy_verdict(env, ctx, req) is None
            &&& req.wallet_id.0@ == ctx.wallet_id.0@
            &&& req.region_id.0@ == ctx.region_id.0@ || env.allow_cross_region
            &&& subject_verdict(envelope.attestations@, ctx.wallet_id.0@) is None
            &&& envelope.attestations@.len() > 0 ==> !score.spec_lt(before.threshold())
            &&& ed25519_key_decodes(ctx.verified_public_key@)
            &&& req.signature@.len() == 64
            &&& ed25519_verifies(ctx.verified_public_key@, canonical_request(req), req.signature@)
            &&& ctx.cert_threshold.spec_le(ctx.auth_ratio)
            &&& envelope.attestations@.len() > 0 ==> certification_threshold(
                before.threshold(),
                before.policy_spec(),
            ).spec_le(score)
            &&& r matches Ok(d) && d.event matches Some(ev) && ev.certified
        }),
{
    let policy = before.policy_spec();
    let threshold = before.threshold();
    assert(admission_verdict(policy, threshold, envelope, score) is None);
    assert(acceptance_verdict(policy, threshold, envelope, score) is None);
    lemma_admitted(policy, threshold, envelope, score);
    lemma_accepted(policy, threshold, envelope, score);
}

/// What an envelope that `admission_verdict` lets through satisfies.
proof fn lemma_admitted(policy: PolicyEngine, threshold: Ratio, envelope: SecurityEnvelope, score: Ratio)
    requires
        admission_verdict(policy, threshold, envelope, score) is None,
    ensures
        ({
            let env = policy.rules.envelope;
            let ctx = envelope.context;
            let req = envelope.request;
            &&& policy_verdict(env, ctx, req) is None
            &&& req.wallet_id.0@ == ctx.wallet_id.0@
            &&& req.region_id.0@ == ctx.region_id.0@ || env.allow_cross_region
            &&& subject_verdict(envelope.attestations@, ctx.wallet_id.0@) is None
            &&& envelope.attestations@.len() > 0 ==> !score.spec_lt(threshold)
            &&& !ctx.auth_ratio.spec_is_nan()
            &&& !ctx.cert_threshold.spec_is_nan()
        }),
{
    let ctx = envelope.context;
    assert(policy_verdict(policy.rules.envelope, ctx, envelope.request) is None);
    assert(ctx.problem() is None);
    assert(ctx.auth_ratio.spec_in_unit() && ctx.cert_threshold.spec_in_unit());
}

/// What an envelope that `acceptance_verdict` lets through satisfies.
proof fn lemma_accepted(policy: PolicyEngine, threshold: Ratio, envelope: SecurityEnvelope, score: Ratio)
    requires
        acceptance_verdict(policy, threshold, envelope, score) is None,
    ensures
        ({
            let ctx = envelope.context;
            let req = envelope.request;
            &&& ed25519_key_decodes(ctx.verified_public_key@)
            &&& req.signature@.len() == 64
            &&& ed25519_verifies(ctx.verified_public_key@, canonical_request(req), req.signature@)
            &&& !ctx.auth_ratio.spec_lt(ctx.cert_threshold)
            &&& envelope.attestations@.len() > 0 ==> certification_threshold(threshold, policy).spec_le(
                score,
            )
        }),
{
}

/// Copies of `items`, in order.
fn clone_attestations(items: &Vec<crate::types::Attestation>) -> (r: Vec<crate::types::Attestation>)
    ensures
        r@ == items@,
{
    let mut out: Vec<crate::types::Attestation> = Vec::new();
    let n = items.len();
    let mut i: usize = 0;
    while i < n
        invariant
            n == items@.len(),
            i <= n,
            out@ == items@.take(i as int),
        decreases n - i,
    {
        out.push(items[i].clone());
        assert(out@ =~= items@.take(i + 1));
        i = i + 1;
    }
    assert(items@.take(n as int) =~= items@);
    out
}

impl SecurityEngineBuilder<MemoryReplayStore, MemoryEventStore, AuditLog> {
    /// A builder with in-memory stores, the default threshold and the label
    /// `local-node`.
    pub fn new(policy: PolicyEngine) -> (b: Self)
        ensures
            b.build_spec().policy_spec() == policy,
            b.build_spec().threshold() == (Ratio { bits: DEFAULT_ATTESTATION_THRESHOLD_BITS }),
            b.build_spec().label() == "local-node"@,
            b.build_spec().replay_store_spec()@.nonces.len() == 0,
            b.build_spec().replay_store_spec()@.event_hashes.len() == 0,
            b.build_spec().replay_store_spec()@.capacity == DEFAULT_REPLAY_CAPACITY,
            b.build_spec().event_store_spec()@.len() == 0,
            b.build_spec().audit_sink_spec()@.len() == 0,
    {
        SecurityEngineBuilder {
            policy,
            replay: MemoryReplayStore::default(),
            audit: AuditLog::new(),
            events: MemoryEventStore::new(),
            attestation_threshold: Ratio::from_bits(DEFAULT_ATTESTATION_THRESHOLD_BITS),
            node_label: String::from_str("local-node"),
        }
    }
}

impl<R: ReplayStore, E: EventStore, A: AuditSink> SecurityEngineBuilder<R, E, A> {
    /// The engine that `build` returns.
    pub closed spec fn build_spec(&self) -> SecurityEngine<R, E, A> {
        SecurityEngine {
            policy: self.policy,
            replay: self.replay,
            audit: self.audit,
            events: self.events,
            attestation_threshold: self.attestation_threshold,
            node_label: self.node_label,
        }
    }

    /// Sets the attestation threshold, clamped to `[0, 1]`.
    pub fn attestation_threshold(self, threshold: Ratio) -> (b: Self)
        ensures
            b.build_spec().threshold() == threshold.spec_clamp_unit(),
            b.build_spec().policy_spec() == self.build_spec().policy_spec(),
            b.build_spec().label() == self.build_spec().label(),
            b.build_spec().replay_store_spec() == self.build_spec().replay_store_spec(),
            b.build_spec().event_store_spec() == self.build_spec().event_store_spec(),
            b.build_spec().audit_sink_spec() == self.build_spec().audit_sink_spec(),
    {
        let mut b = self;
        b.attestation_threshold = threshold.clamp_unit();
        b
    }

    /// Sets the node label.
    pub fn node_label(self, label: &str) -> (b: Self)
        ensures
            b.build_spec().label() == label@,
            b.build_spec().threshold() == self.build_spec().threshold(),
            b.build_spec().policy_spec() == self.build_spec().policy_spec(),
            b.build_spec().replay_store_spec() == self.build_spec().replay_store_spec(),
            b.build_spec().event_store_spec() == self.build_spec().event_store_spec(),
            b.build_spec().audit_sink_spec() == self.build_spec().audit_sink_spec(),
    {
        let mut b = self;
        b.node_label = String::from_str(label);
        b
    }

    /// Uses `replay` as the replay store.
    pub fn replay_store<R2: ReplayStore>(self, replay: R2) -> (b: SecurityEngineBuilder<R2, E, A>)
        ensures
            b.build_spec().replay_store_spec() == replay,
            b.build_spec().threshold() == self.build_spec().threshold(),
            b.build_spec().label() == self.build_spec().label(),
            b.build_spec().policy_spec() == self.build_spec().policy_spec(),
            b.build_spec().event_store_spec() == self.build_spec().event_store_spec(),
            b.build_spec().audit_sink_spec() == self.build_spec().audit_sink_spec(),
    {
        SecurityEngineBuilder {
            policy: self.policy,
            replay,
            audit: self.audit,
            events: self.events,
            attestation_threshold: self.attestation_threshold,
            node_label: self.node_label,
        }
    }

    /// Uses `audit` as the audit sink.
    pub fn audit_sink<A2: AuditSink>(self, audit: A2) -> (b: SecurityEngineBuilder<R, E, A2>)
        ensures
            b.build_spec().audit_sink_spec() == audit,
            b.build_spec().threshold() == self.build_spec().threshold(),
            b.build_spec().label() == self.build_spec().label(),
            b.build_spec().policy_spec() == self.build_spec().policy_spec(),
            b.build_spec().replay_store_spec() == self.build_spec().replay_store_spec(),
            b.build_spec().event_store_spec() == self.build_spec().event_store_spec(),
    {
        SecurityEngineBuilder {
            policy: self.policy,
            replay: self.replay,
            audit,
            events: self.events,
            attestation_threshold: self.attestation_threshold,
            node_label: self.node_label,
        }
    }

    /// Uses `events` as the event store.
    pub fn event_store<E2: EventStore>(self, events: E2) -> (b: SecurityEngineBuilder<R, E2, A>)
        ensures
            b.build_spec().event_store_spec() == events,
            b.build_spec().threshold() == self.build_spec().threshold(),
            b.build_spec().label() == self.build_spec().label(),
            b.build_spec().policy_spec() == self.build_spec().policy_spec(),
            b.build_spec().replay_store_spec() == self.build_spec().replay_store_spec(),
            b.build_spec().audit_sink_spec() == self.build_spec().audit_sink_spec(),
    {
        SecurityEngineBuilder {
            policy: self.policy,
            replay: self.replay,
            audit: self.audit,
            events,
            attestation_threshold: self.attestation_threshold,
            node_label: self.node_label,
        }
    }

    /// The engine.
    pub fn build(self) -> (e: SecurityEngine<R, E, A>)
        ensures
            e == self.build_spec(),
    {
        SecurityEngine {
            policy: self.policy,
            replay: self.replay,
            audit: self.audit,
            events: self.events,
            attestation_threshold: self.attestation_threshold,
            node_label: self.node_label,
        }
    }
}

} // verus!
