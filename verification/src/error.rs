//! Classified failures of a synthesis request, as the service's response
//! status reports them.

use vstd::prelude::*;

verus! {

/// Why the service refused, or could not be reached for, a request. The
/// outer transport layer maps its own connection failures to
/// `UnknownConnectionError` as well.
#[derive(Clone, Copy, Debug, PartialEq, Eq, Structural)]
pub enum TtsError {
    /// The service rejected the request body or headers.
    BadRequest,
    /// The bearer token was missing, invalid or expired.
    AuthError,
    /// The requested audio encoding is not supported for this request.
    UnsupportedMediaType,
    /// The caller is rate-limited and should back off.
    TooManyRequest,
    /// Any other non-success outcome.
    UnknownConnectionError,
}

/// The fixed description of each failure.
pub open spec fn spec_error_str(e: TtsError) -> Seq<char> {
    match e {
        TtsError::BadRequest => "bad request"@,
        TtsError::AuthError => "authorization failed"@,
        TtsError::UnsupportedMediaType => "unsupported media type"@,
        TtsError::TooManyRequest => "too many requests"@,
        TtsError::UnknownConnectionError => "unknown connection error"@,
    }
}

impl TtsError {
    /// A short human-readable description of the failure.
    pub fn as_string(&self) -> (r: &'static str)
        ensures
            r@ == spec_error_str(*self),
    {
        match self {
            TtsError::BadRequest => "bad request",
            TtsError::AuthError => "authorization failed",
            TtsError::UnsupportedMediaType => "unsupported media type",
            TtsError::TooManyRequest => "too many requests",
            TtsError::UnknownConnectionError => "unknown connection error",
        }
    }
}

} // verus!
