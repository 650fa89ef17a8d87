//! Errors of the security layer.
use crate::ratio::Ratio;
use vstd::prelude::*;

verus! {

/// Why a request, a store operation or a configuration was refused.
#[derive(Debug)]
pub enum SecurityError {
    /// The request signature does not verify.
    InvalidSignature,
    /// The request signature is not 64 bytes long.
    InvalidSignatureLength,
    /// The nonce or the event hash was seen before.
    ReplayDetected,
    /// A policy rule refused the request.
    PolicyViolation(String),
    /// The context's auth ratio is below the required one.
    AuthBelowThreshold { got: Ratio, required: Ratio },
    /// The attestation score is below the required one.
    AttestationBelowThreshold { got: Ratio, required: Ratio },
    /// The request or its context is malformed.
    InvalidRequest(String),
    /// A value could not be encoded or decoded.
    Serialization(String),
    /// A store failed.
    Storage(String),
    /// The configuration is inconsistent.
    Configuration(String),
    /// An internal invariant failed.
    Internal(String),
}

/// A `SecurityError` with its texts as character sequences.
pub enum ErrorView {
    InvalidSignature,
    InvalidSignatureLength,
    ReplayDetected,
    PolicyViolation(Seq<char>),
    AuthBelowThreshold { got: Ratio, required: Ratio },
    AttestationBelowThreshold { got: Ratio, required: Ratio },
    InvalidRequest(Seq<char>),
    Serialization(Seq<char>),
    Storage(Seq<char>),
    Configuration(Seq<char>),
    Internal(Seq<char>),
}

impl View for SecurityError {
    type V = ErrorView;

    open spec fn view(&self) -> ErrorView {
        match self {
            SecurityError::InvalidSignature => ErrorView::InvalidSignature,
            SecurityError::InvalidSignatureLength => ErrorView::InvalidSignatureLength,
            SecurityError::ReplayDetected => ErrorView::ReplayDetected,
            SecurityError::PolicyViolation(m) => ErrorView::PolicyViolation(m@),
            SecurityError::AuthBelowThreshold { got, required } => ErrorView::AuthBelowThreshold {
                got: *got,
                required: *required,
            },
            SecurityError::AttestationBelowThreshold { got, required } =>
                ErrorView::AttestationBelowThreshold { got: *got, required: *required },
            SecurityError::InvalidRequest(m) => ErrorView::InvalidRequest(m@),
            SecurityError::Serialization(m) => ErrorView::Serialization(m@),
            SecurityError::Storage(m) => ErrorView::Storage(m@),
            SecurityError::Configuration(m) => ErrorView::Configuration(m@),
            SecurityError::Internal(m) => ErrorView::Internal(m@),
        }
    }
}

/// The outcome of a fallible operation of the security layer.
pub type SecurityResult<T> = Result<T, SecurityError>;

/// The error of a result, by its view, or `None` for success.
pub open spec fn error_of<T>(r: SecurityResult<T>) -> Option<ErrorView> {
    match r {
        Ok(_) => None,
        Err(e) => Some(e@),
    }
}

} // verus!
