//! Policy enforcement: request structure, sizes, versions, thresholds,
//! regions, clock skew and permitted operations.
use crate::errors::{error_of, ErrorView, SecurityError, SecurityResult};
use crate::ratio::Ratio;
use crate::text::{decimal, is_blank, is_blank_spec, push_decimal, push_signed_decimal, push_text, signed_decimal};
use crate::types::{OperationKind, PolicyEnvelope, SecurityContext, SecurityRequest};
use vstd::prelude::*;

verus! {

/// The rules that the policy engine enforces.
#[derive(Debug, Clone, Copy)]
pub struct PolicyRuleSet {
    pub envelope: PolicyEnvelope,
}

/// Decides whether a request is permitted by a policy envelope.
#[derive(Debug, Clone, Copy)]
pub struct PolicyEngine {
    pub rules: PolicyRuleSet,
}

/// `0.02`, the drain rate of the geometric operations.
pub const GEOMETRIC_DRAIN_RATE_BITS: u64 = 0x3f94_7ae1_47ae_147b;

/// `|a - b|` for timestamps.
pub open spec fn drift(a: i64, b: i64) -> int {
    if a - b < 0 {
        b - a
    } else {
        a - b
    }
}

/// A message made of a prefix, a number, a separator and a number.
pub open spec fn two_numbers(prefix: Seq<char>, a: nat, sep: Seq<char>, b: nat) -> Seq<char> {
    prefix + decimal(a) + sep + decimal(b)
}

/// The first of the rules checked before the clock skew that `req` in `ctx`
/// breaks, as the error that reports it, in this order: request structure,
/// context structure, protocol version, payload size, empty payload, parent
/// count, nonce length (in bytes), signature length, minimum auth ratio,
/// region.
pub open spec fn limits_verdict(
    env: PolicyEnvelope,
    ctx: SecurityContext,
    req: SecurityRequest,
) -> Option<ErrorView> {
    if req.problem() is Some {
        Some(ErrorView::InvalidRequest(req.problem()->0))
    } else if ctx.problem() is Some {
        Some(ErrorView::InvalidRequest(ctx.problem()->0))
    } else if req.protocol_version != env.required_protocol_version {
        Some(
            ErrorView::PolicyViolation(
                two_numbers(
                    "unsupported protocol version: "@,
                    req.protocol_version as nat,
                    " != "@,
                    env.required_protocol_version as nat,
                ),
            ),
        )
    } else if req.payload@.len() > env.max_payload_bytes {
        Some(
            ErrorView::PolicyViolation(
                two_numbers(
                    "payload too large: "@,
                    req.payload@.len(),
                    " > "@,
                    env.max_payload_bytes as nat,
                ),
            ),
        )
    } else if req.payload@.len() == 0 && !env.allow_empty_payloads {
        Some(ErrorView::PolicyViolation("empty payloads are disabled"@))
    } else if req.parent_event_hashes@.len() > env.max_parent_hashes {
        Some(
            ErrorView::PolicyViolation(
                two_numbers(
                    "too many parent hashes: "@,
                    req.parent_event_hashes@.len(),
                    " > "@,
                    env.max_parent_hashes as nat,
                ),
            ),
        )
    } else if vstd::utf8::encode_utf8(req.nonce.0@).len() > env.max_nonce_len {
        Some(
            ErrorView::PolicyViolation(
                two_numbers(
                    "nonce too long: "@,
                    vstd::utf8::encode_utf8(req.nonce.0@).len(),
                    " > "@,
                    env.max_nonce_len as nat,
                ),
            ),
        )
    } else if req.signature@.len() > env.max_signature_bytes {
        Some(
            ErrorView::PolicyViolation(
                two_numbers(
                    "signature too long: "@,
                    req.signature@.len(),
                    " > "@,
                    env.max_signature_bytes as nat,
                ),
            ),
        )
    } else if ctx.auth_ratio.spec_lt(env.min_auth_ratio) {
        Some(ErrorView::AuthBelowThreshold { got: ctx.auth_ratio, required: env.min_auth_ratio })
    } else if req.region_id.0@ != ctx.region_id.0@ && !env.allow_cross_region {
        Some(ErrorView::PolicyViolation("cross-region operations disabled"@))
    } else {
        None
    }
}

/// The first rule of `env` that `req` in `ctx` breaks, as the error that
/// reports it, or `None` when the request is permitted: the rules of
/// `limits_verdict`, then clock skew, custom operation name and disabled
/// operations.
pub open spec fn policy_verdict(
    env: PolicyEnvelope,
    ctx: SecurityContext,
    req: SecurityRequest,
) -> Option<ErrorView> {
    if limits_verdict(env, ctx, req) is Some {
        limits_verdict(env, ctx, req)
    } else if drift(ctx.timestamp, req.timestamp) > env.max_clock_skew_secs {
        Some(
            ErrorView::PolicyViolation(
                "timestamp drift too large: "@ + signed_decimal(drift(ctx.timestamp, req.timestamp))
                    + "s > "@ + signed_decimal(env.max_clock_skew_secs as int) + "s"@,
            ),
        )
    } else if req.operation matches OperationKind::Custom(kind) && is_blank_spec(kind@) {
        Some(ErrorView::PolicyViolation("custom operation name is empty"@))
    } else if req.operation is Create && !env.allow_create {
        Some(ErrorView::PolicyViolation("CREATE is disabled"@))
    } else if req.operation is Transfer && !env.allow_transfer {
        Some(ErrorView::PolicyViolation("TRANSFER is disabled"@))
    } else if req.operation is Project && !env.allow_projection {
        Some(ErrorView::PolicyViolation("PROJECT is disabled"@))
    } else if req.operation is Query && !env.allow_query {
        Some(ErrorView::PolicyViolation("QUERY is disabled"@))
    } else {
        None
    }
}

/// The drain rate of an operation: the envelope's maximum for transfers and
/// projections, `0.02` for moves, rotations and scalings, `0.0` otherwise.
pub open spec fn drain_rate_spec(env: PolicyEnvelope, op: OperationKind) -> Ratio {
    match op {
        OperationKind::Transfer | OperationKind::Project => env.max_drain_rate,
        OperationKind::Move | OperationKind::Rotate | OperationKind::Scale => Ratio {
            bits: GEOMETRIC_DRAIN_RATE_BITS,
        },
        _ => Ratio::zero_spec(),
    }
}

fn number_message(prefix: &str, a: u64, sep: &str, b: u64) -> (m: String)
    ensures
        m@ == two_numbers(prefix@, a as nat, sep@, b as nat),
{
    let mut m = String::from_str(prefix);
    push_decimal(&mut m, a);
    push_text(&mut m, sep);
    push_decimal(&mut m, b);
    m
}

fn violation(message: &str) -> (e: SecurityError)
    ensures
        e@ == ErrorView::PolicyViolation(message@),
{
    SecurityError::PolicyViolation(String::from_str(message))
}

impl Default for PolicyEngine {
    fn default() -> (r: Self)
        ensures
            r.rules.envelope == PolicyEnvelope::default_spec(),
    {
        PolicyEngine { rules: PolicyRuleSet { envelope: PolicyEnvelope::default() } }
    }
}

impl PolicyEngine {
    /// A policy engine that enforces `envelope`.
    pub fn with_envelope(envelope: PolicyEnvelope) -> (r: Self)
        ensures
            r.rules.envelope == envelope,
    {
        PolicyEngine { rules: PolicyRuleSet { envelope } }
    }

    /// The envelope that this engine enforces.
    pub fn envelope(&self) -> (env: &PolicyEnvelope)
        ensures
            *env == self.rules.envelope,
    {
        &self.rules.envelope
    }

    /// Checks the rules that come before the clock skew, in the order of
    /// `limits_verdict`, and fails with the error for the first one broken.
    pub fn check_limits(&self, ctx: &SecurityContext, req: &SecurityRequest) -> (r: SecurityResult<
        (),
    >)
        ensures
            error_of(r) == limits_verdict(self.rules.envelope, *ctx, *req),
    {
        let env = &self.rules.envelope;

        match req.validate_basic() {
            Ok(()) => {},
            Err(m) => return Err(SecurityError::InvalidRequest(m)),
        }
        match ctx.validate() {
            Ok(()) => {},
            Err(m) => return Err(SecurityError::InvalidRequest(m)),
        }

        if req.protocol_version != env.required_protocol_version {
            return Err(
                SecurityError::PolicyViolation(
                    number_message(
                        "unsupported protocol version: ",
                        req.protocol_version as u64,
                        " != ",
                        env.required_protocol_version as u64,
                    ),
                ),
            );
        }

        if req.payload.len() > env.max_payload_bytes {
            return Err(
                SecurityError::PolicyViolation(
                    number_message(
                        "payload too large: ",
                        req.payload.len() as u64,
                        " > ",
                        env.max_payload_bytes as u64,
                    ),
                ),
            );
        }

        if req.payload.len() == 0 && !env.allow_empty_payloads {
            return Err(violation("empty payloads are disabled"));
        }

        if req.parent_event_hashes.len() > env.max_parent_hashes {
            return Err(
                SecurityError::PolicyViolation(
                    number_message(
                        "too many parent hashes: ",
                        req.parent_event_hashes.len() as u64,
                        " > ",
                        env.max_parent_hashes as u64,
                    ),
                ),
            );
        }

        let nonce_len = req.nonce.0.as_str().as_bytes().len();
        if nonce_len > env.max_nonce_len {
            return Err(
                SecurityError::PolicyViolation(
                    number_message(
                        "nonce too long: ",
                        nonce_len as u64,
                        " > ",
                        env.max_nonce_len as u64,
                    ),
                ),
            );
        }

        if req.signature.len() > env.max_signature_bytes {
            return Err(
                SecurityError::PolicyViolation(
                    number_message(
                        "signature too long: ",
                        req.signature.len() as u64,
                        " > ",
                        env.max_signature_bytes as u64,
                    ),
                ),
            );
        }

        if ctx.auth_ratio.lt(&env.min_auth_ratio) {
            return Err(
                SecurityError::AuthBelowThreshold {
                    got: ctx.auth_ratio,
                    required: env.min_auth_ratio,
                },
            );
        }

        if !(req.region_id.0 == ctx.region_id.0) && !env.allow_cross_region {
            return Err(violation("cross-region operations disabled"));
        }

        Ok(())
    }

    /// Checks `req` in `ctx` against the envelope. It fails with the error for
    /// the first rule broken, in the order of `policy_verdict`, and succeeds
    /// when none is.
    pub fn validate(&self, ctx: &SecurityContext, req: &SecurityRequest) -> (r: SecurityResult<()>)
        ensures
            error_of(r) == policy_verdict(self.rules.envelope, *ctx, *req),
    {
        let env = &self.rules.envelope;
        match self.check_limits(ctx, req) {
            Ok(()) => {},
            Err(e) => return Err(e),
        }

        // The difference of two `i64` timestamps always fits in an `i128`,
        // and its magnitude in a `u64`.
        let difference: i128 = ctx.timestamp as i128 - req.timestamp as i128;
        let drift: i128 = if difference < 0 {
            -difference
        } else {
            difference
        };
        if drift > env.max_clock_skew_secs as i128 {
            let mut m = String::from_str("timestamp drift too large: ");
            push_decimal(&mut m, drift as u64);
            push_text(&mut m, "s > ");
            push_signed_decimal(&mut m, env.max_clock_skew_secs);
            push_text(&mut m, "s");
            return Err(SecurityError::PolicyViolation(m));
        }

        if let OperationKind::Custom(kind) = &req.operation {
            if is_blank(kind.as_str()) {
                return Err(violation("custom operation name is empty"));
            }
        }

        match &req.operation {
            OperationKind::Create => {
                if !env.allow_create {
                    return Err(violation("CREATE is disabled"));
                }
            },
            OperationKind::Transfer => {
                if !env.allow_transfer {
                    return Err(violation("TRANSFER is disabled"));
                }
            },
            OperationKind::Project => {
                if !env.allow_projection {
                    return Err(violation("PROJECT is disabled"));
                }
            },
            OperationKind::Query => {
                if !env.allow_query {
                    return Err(violation("QUERY is disabled"));
                }
            },
            _ => {},
        }

        Ok(())
    }

    /// The share of value that `op` drains.
    pub fn drain_rate_for(&self, op: &OperationKind) -> (rate: Ratio)
        ensures
            rate == drain_rate_spec(self.rules.envelope, *op),
    {
        match op {
            OperationKind::Transfer | OperationKind::Project => self.rules.envelope.max_drain_rate,
            OperationKind::Move | OperationKind::Rotate | OperationKind::Scale => Ratio::from_bits(
                GEOMETRIC_DRAIN_RATE_BITS,
            ),
            _ => Ratio::zero(),
        }
    }
}

/// Each operation switch governs its own operation, whatever the other
/// switches say: for a request that passes every rule before the switches
/// (structure, limits, auth ratio, region, clock skew, custom name), a
/// create is refused exactly when `allow_create` is off, a transfer exactly
/// when `allow_transfer` is off, a projection exactly when
/// `allow_projection` is off, a query exactly when `allow_query` is off, each
/// with its own message, and every other operation is permitted.
pub proof fn law_operation_switches(env: PolicyEnvelope, ctx: SecurityContext, req: SecurityRequest)
    requires
        limits_verdict(env, ctx, req) is None,
        drift(ctx.timestamp, req.timestamp) <= env.max_clock_skew_secs,
        !(req.operation matches OperationKind::Custom(kind) && is_blank_spec(kind@)),
    ensures
        req.operation is Create ==> (policy_verdict(env, ctx, req) is None <==> env.allow_create),
        req.operation is Create && !env.allow_create ==> policy_verdict(env, ctx, req) == Some(
            ErrorView::PolicyViolation("CREATE is disabled"@),
        ),
        req.operation is Transfer ==> (policy_verdict(env, ctx, req) is None <==> env.allow_transfer),
        req.operation is Transfer && !env.allow_transfer ==> policy_verdict(env, ctx, req) == Some(
            ErrorView::PolicyViolation("TRANSFER is disabled"@),
        ),
        req.operation is Project ==> (policy_verdict(env, ctx, req) is None
            <==> env.allow_projection),
        req.operation is Project && !env.allow_projection ==> policy_verdict(env, ctx, req) == Some(
            ErrorView::PolicyViolation("PROJECT is disabled"@),
        ),
        req.operation is Query ==> (policy_verdict(env, ctx, req) is None <==> env.allow_query),
        req.operation is Query && !env.allow_query ==> policy_verdict(env, ctx, req) == Some(
            ErrorView::PolicyViolation("QUERY is disabled"@),
        ),
        !(req.operation is Create || req.operation is Transfer || req.operation is Project
            || req.operation is Query) ==> policy_verdict(env, ctx, req) is None,
{
}

/// Turning one switch on or off changes the verdict of no request for
/// another operation.
pub proof fn law_switches_are_independent(
    env: PolicyEnvelope,
    other: PolicyEnvelope,
    ctx: SecurityContext,
    req: SecurityRequest,
)
    requires
        other == (PolicyEnvelope {
            allow_create: other.allow_create,
            allow_transfer: other.allow_transfer,
            allow_projection: other.allow_projection,
            allow_query: other.allow_query,
            ..env
        }),
        req.operation is Create ==> other.allow_create == env.allow_create,
        req.operation is Transfer ==> other.allow_transfer == env.allow_transfer,
        req.operation is Project ==> other.allow_projection == env.allow_projection,
        req.operation is Query ==> other.allow_query == env.allow_query,
    ensures
        policy_verdict(other, ctx, req) == policy_verdict(env, ctx, req),
{
    assert(limits_verdict(other, ctx, req) == limits_verdict(env, ctx, req));
}

/// Transfers and projections drain the engine's own maximum drain rate, the
/// geometric operations (move, rotate, scale) drain `0.02`, and every other
/// operation drains nothing; the rate of a transfer follows the envelope.
pub proof fn law_drain_rates(env: PolicyEnvelope, op: OperationKind)
    ensures
        drain_rate_spec(env, OperationKind::Transfer) == env.max_drain_rate,
        drain_rate_spec(env, OperationKind::Project) == env.max_drain_rate,
        drain_rate_spec(env, OperationKind::Move).bits == 0x3f94_7ae1_47ae_147bu64,
        drain_rate_spec(env, OperationKind::Rotate).bits == 0x3f94_7ae1_47ae_147bu64,
        drain_rate_spec(env, OperationKind::Scale).bits == 0x3f94_7ae1_47ae_147bu64,
        !(op is Transfer || op is Project || op is Move || op is Rotate || op is Scale)
            ==> drain_rate_spec(env, op).bits == 0,
{
}

} // verus!
