//! The closed failure taxonomy and its three pure queries.
//!
//! Every failure the SDK can produce resolves to exactly one variant of
//! [`AiError`]. Three total queries sit on top of the variant set:
//! [`AiError::error_code`] maps each variant to a stable wire code,
//! [`AiError::is_retryable`] classifies the variant as transient or not,
//! and [`AiError::retry_after`] advises a wait interval for the transient
//! variants.

use vstd::prelude::*;

use crate::duration::Duration;

verus! {

/// Declares `reqwest::Error`, the opaque transport fault wrapped by
/// [`AiError::Network`]. The library carries such a value through without
/// looking inside it.
#[verifier::external_type_specification]
#[verifier::external_body]
pub struct ExReqwestError(reqwest::Error);

/// Declares `serde_json::Error`, the opaque codec fault wrapped by
/// [`AiError::Serialization`]. The library carries such a value through
/// without looking inside it.
#[verifier::external_type_specification]
#[verifier::external_body]
pub struct ExSerdeJsonError(serde_json::Error);

/// The closed set of failure kinds, each with its own payload.
///
/// The set is exhaustive: every code path of the SDK that can fail must
/// resolve to exactly one of these variants. Payloads are immutable once
/// constructed, and none of the three queries on this type can fail.
#[derive(Debug)]
pub enum AiError {
    /// Authentication with the provider failed.
    Auth(String),
    /// The provider throttled the request; the carried duration, if any,
    /// is the provider's advised wait before retrying.
    RateLimit {
        /// Advised wait before retrying, if the provider gave one.
        retry_after: Option<Duration>,
    },
    /// A named tool's execution failed.
    Tool {
        /// Name of the tool that failed.
        tool_name: String,
        /// Diagnostic message.
        message: String,
    },
    /// Generic input validation failed.
    Validation(String),
    /// A connectivity or transport-layer failure, wrapping the opaque
    /// lower-layer transport fault.
    Network(reqwest::Error),
    /// A provider-specific semantic error, optionally carrying the
    /// provider's own error code.
    Provider {
        /// Provider name.
        provider: String,
        /// Diagnostic message.
        message: String,
        /// The provider's own error code, if it gave one.
        code: Option<String>,
    },
    /// The operation gave up after waiting the carried duration.
    Timeout(Duration),
    /// A structured-data encode or decode failure, wrapping the opaque
    /// lower-layer codec fault.
    Serialization(serde_json::Error),
    /// An SDK-internal invariant violation, not provider-caused.
    Internal(String),
    /// The caller referenced an unregistered tool.
    NoSuchTool(String),
    /// The tool was found but its input failed validation.
    InvalidToolInput {
        /// Name of the tool whose input was rejected.
        tool_name: String,
        /// Reason the input was rejected.
        reason: String,
    },
    /// A JSON-Schema-style contract violation.
    SchemaValidation(String),
    /// An error while producing or consuming a streamed response.
    Stream(String),
    /// SDK misconfiguration detected before any request.
    Config(String),
}

/// The wire code of each variant: a stable identifier drawn from a fixed
/// eleven-element enumeration. The mapping is many-to-one: `Tool`,
/// `NoSuchTool` and `InvalidToolInput` share `TOOL_ERROR`; `Validation`
/// and `SchemaValidation` share `VALIDATION_ERROR`.
pub open spec fn spec_error_code(e: &AiError) -> Seq<char> {
    match e {
        AiError::Auth(_) => "AUTH_ERROR"@,
        AiError::RateLimit { .. } => "RATE_LIMIT_ERROR"@,
        AiError::Tool { .. } => "TOOL_ERROR"@,
        AiError::Validation(_) => "VALIDATION_ERROR"@,
        AiError::Network(_) => "NETWORK_ERROR"@,
        AiError::Provider { .. } => "PROVIDER_ERROR"@,
        AiError::Timeout(_) => "TIMEOUT_ERROR"@,
        AiError::Serialization(_) => "SERIALIZATION_ERROR"@,
        AiError::Internal(_) => "INTERNAL_ERROR"@,
        AiError::NoSuchTool(_) => "TOOL_ERROR"@,
        AiError::InvalidToolInput { .. } => "TOOL_ERROR"@,
        AiError::SchemaValidation(_) => "VALIDATION_ERROR"@,
        AiError::Stream(_) => "STREAM_ERROR"@,
        AiError::Config(_) => "CONFIG_ERROR"@,
    }
}

/// Whether a string is one of the eleven wire codes.
pub open spec fn spec_is_wire_code(s: Seq<char>) -> bool {
    ||| s == "AUTH_ERROR"@
    ||| s == "RATE_LIMIT_ERROR"@
    ||| s == "TOOL_ERROR"@
    ||| s == "VALIDATION_ERROR"@
    ||| s == "NETWORK_ERROR"@
    ||| s == "PROVIDER_ERROR"@
    ||| s == "TIMEOUT_ERROR"@
    ||| s == "SERIALIZATION_ERROR"@
    ||| s == "INTERNAL_ERROR"@
    ||| s == "STREAM_ERROR"@
    ||| s == "CONFIG_ERROR"@
}

/// A variant is retryable exactly when it is one of `RateLimit`,
/// `Network`, `Timeout`: the transient conditions where an identical
/// retry may succeed. The classification reads the variant tag only.
pub open spec fn spec_is_retryable(e: &AiError) -> bool {
    ||| e is RateLimit
    ||| e is Network
    ||| e is Timeout
}

/// The advised retry delay of each variant: `RateLimit` passes its own
/// carried duration through, `Network` advises a fixed one second,
/// `Timeout` a fixed two seconds, and every other variant advises none.
pub open spec fn spec_retry_after(e: &AiError) -> Option<Duration> {
    match e {
        AiError::RateLimit { retry_after } => *retry_after,
        AiError::Network(_) => Some(Duration { secs: 1, nanos: 0 }),
        AiError::Timeout(_) => Some(Duration { secs: 2, nanos: 0 }),
        _ => None,
    }
}

impl AiError {
    /// The stable wire code of this failure, suitable for cross-process
    /// transmission. Total and deterministic: the result is a pure
    /// function of the variant tag, so repeated calls on equal inputs
    /// return equal codes.
    pub fn error_code(&self) -> (r: &str)
        ensures
            r@ == spec_error_code(self),
    {
        match self {
            AiError::Auth(_) => "AUTH_ERROR",
            AiError::RateLimit { .. } => "RATE_LIMIT_ERROR",
            AiError::Tool { .. } => "TOOL_ERROR",
            AiError::Validation(_) => "VALIDATION_ERROR",
            AiError::Network(_) => "NETWORK_ERROR",
            AiError::Provider { .. } => "PROVIDER_ERROR",
            AiError::Timeout(_) => "TIMEOUT_ERROR",
            AiError::Serialization(_) => "SERIALIZATION_ERROR",
            AiError::Internal(_) => "INTERNAL_ERROR",
            AiError::NoSuchTool(_) => "TOOL_ERROR",
            AiError::InvalidToolInput { .. } => "TOOL_ERROR",
            AiError::SchemaValidation(_) => "VALIDATION_ERROR",
            AiError::Stream(_) => "STREAM_ERROR",
            AiError::Config(_) => "CONFIG_ERROR",
        }
    }

    /// Whether an identical retry of the failed request may succeed:
    /// true exactly for `RateLimit`, `Network` and `Timeout`.
    pub fn is_retryable(&self) -> (r: bool)
        ensures
            r == spec_is_retryable(self),
    {
        match self {
            AiError::RateLimit { .. } => true,
            AiError::Network(_) => true,
            AiError::Timeout(_) => true,
            _ => false,
        }
    }

    /// The advised wait before retrying, for the retryable variants;
    /// `None` everywhere else signals "do not retry". The advice is
    /// never enforced by this library.
    pub fn retry_after(&self) -> (r: Option<Duration>)
        ensures
            r == spec_retry_after(self),
    {
        match self {
            AiError::RateLimit { retry_after } => *retry_after,
            AiError::Network(_) => Some(Duration::from_secs(1)),
            AiError::Timeout(_) => Some(Duration::from_secs(2)),
            _ => None,
        }
    }
}

impl From<reqwest::Error> for AiError {
    /// Wraps an opaque transport fault as [`AiError::Network`], losing
    /// nothing of the fault.
    fn from(e: reqwest::Error) -> (r: AiError)
        ensures
            r == AiError::Network(e),
    {
        AiError::Network(e)
    }
}

impl vstd::std_specs::convert::FromSpecImpl<reqwest::Error> for AiError {
    open spec fn obeys_from_spec() -> bool {
        true
    }

    open spec fn from_spec(e: reqwest::Error) -> AiError {
        AiError::Network(e)
    }
}

impl From<serde_json::Error> for AiError {
    /// Wraps an opaque codec fault as [`AiError::Serialization`], losing
    /// nothing of the fault.
    fn from(e: serde_json::Error) -> (r: AiError)
        ensures
            r == AiError::Serialization(e),
    {
        AiError::Serialization(e)
    }
}

impl vstd::std_specs::convert::FromSpecImpl<serde_json::Error> for AiError {
    open spec fn obeys_from_spec() -> bool {
        true
    }

    open spec fn from_spec(e: serde_json::Error) -> AiError {
        AiError::Serialization(e)
    }
}

/// Result alias using [`AiError`] as the error type.
pub type Result<T> = core::result::Result<T, AiError>;

/// Law: for every variant, the wire code is a non-empty string drawn
/// from the fixed eleven-element enumeration.
pub proof fn lemma_error_code_in_enumeration(e: &AiError)
    ensures
        spec_error_code(e).len() > 0,
        spec_is_wire_code(spec_error_code(e)),
{
    reveal_strlit("AUTH_ERROR");
    reveal_strlit("RATE_LIMIT_ERROR");
    reveal_strlit("TOOL_ERROR");
    reveal_strlit("VALIDATION_ERROR");
    reveal_strlit("NETWORK_ERROR");
    reveal_strlit("PROVIDER_ERROR");
    reveal_strlit("TIMEOUT_ERROR");
    reveal_strlit("SERIALIZATION_ERROR");
    reveal_strlit("INTERNAL_ERROR");
    reveal_strlit("STREAM_ERROR");
    reveal_strlit("CONFIG_ERROR");
}

/// Law: a retry delay is advised only for retryable variants. Outside
/// `RateLimit`, `Network` and `Timeout` the advice is always absent,
/// and whenever advice is present the variant is retryable.
pub proof fn lemma_retry_after_only_for_retryable(e: &AiError)
    ensures
        !spec_is_retryable(e) ==> spec_retry_after(e) is None,
        spec_retry_after(e) is Some ==> spec_is_retryable(e),
{
}

} // verus!
