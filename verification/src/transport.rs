//! Verified pieces of the network transport around the synthesis service:
//! the endpoint and header strings a request is made of, the classification
//! of response status codes, and the bearer-token refresh decision. The I/O
//! itself lives in an outer, unverified layer that consumes these.

use crate::error::TtsError;
use crate::types::{spec_region_str, Region};
use vstd::prelude::*;
use vstd::string::StringExecFns;

verus! {

/// Seconds a bearer token is trusted for before it is refreshed; the
/// service's tokens outlive this by a safety margin.
pub const ACCESS_TOKEN_TIMEOUT_SECS: u64 = 60 * 9;

/// Whether a bearer token fetched `elapsed_secs` ago must be refreshed
/// before its next use.
pub fn needs_token_refresh(elapsed_secs: u64) -> (r: bool)
    ensures
        r == (elapsed_secs > ACCESS_TOKEN_TIMEOUT_SECS),
{
    elapsed_secs > ACCESS_TOKEN_TIMEOUT_SECS
}

/// How the service classifies a synthesis response: success on 200, a fixed
/// failure for each documented client-error status, an opaque failure for
/// anything else.
pub open spec fn spec_classify_status(status: u16) -> Result<(), TtsError> {
    if status == 200 {
        Ok(())
    } else if status == 400 {
        Err(TtsError::BadRequest)
    } else if status == 401 {
        Err(TtsError::AuthError)
    } else if status == 415 {
        Err(TtsError::UnsupportedMediaType)
    } else if status == 429 {
        Err(TtsError::TooManyRequest)
    } else {
        Err(TtsError::UnknownConnectionError)
    }
}

/// Classifies the status code of a synthesis response.
pub fn classify_status(status: u16) -> (r: Result<(), TtsError>)
    ensures
        r == spec_classify_status(status),
{
    if status == 200 {
        Ok(())
    } else if status == 400 {
        Err(TtsError::BadRequest)
    } else if status == 401 {
        Err(TtsError::AuthError)
    } else if status == 415 {
        Err(TtsError::UnsupportedMediaType)
    } else if status == 429 {
        Err(TtsError::TooManyRequest)
    } else {
        Err(TtsError::UnknownConnectionError)
    }
}

/// The host name of a region's synthesis service.
pub open spec fn spec_tts_host(region: Region) -> Seq<char> {
    spec_region_str(region) + ".tts.speech.microsoft.com"@
}

/// The host name of a region's token-issuing service.
pub open spec fn spec_token_host(region: Region) -> Seq<char> {
    spec_region_str(region) + ".api.cognitive.microsoft.com"@
}

/// The host name of a region's synthesis service, as sent in the Host
/// header of synthesis and voice-listing requests.
pub fn tts_host(region: Region) -> (r: String)
    ensures
        r@ == spec_tts_host(region),
{
    let mut out = String::from_str(region.as_string());
    out.append(".tts.speech.microsoft.com");
    out
}

/// The host name of a region's token-issuing service, as sent in the Host
/// header of token requests.
pub fn token_host(region: Region) -> (r: String)
    ensures
        r@ == spec_token_host(region),
{
    let mut out = String::from_str(region.as_string());
    out.append(".api.cognitive.microsoft.com");
    out
}

/// The URL a synthesis request is posted to.
pub fn synthesis_endpoint(region: Region) -> (r: String)
    ensures
        r@ == "https://"@ + spec_tts_host(region) + "/cognitiveservices/v1"@,
{
    let mut out = String::from_str("https://");
    out.append(region.as_string());
    out.append(".tts.speech.microsoft.com");
    out.append("/cognitiveservices/v1");
    proof {
        assert(out@ =~= "https://"@ + spec_tts_host(region) + "/cognitiveservices/v1"@);
    }
    out
}

/// The URL the voice catalogue is listed from.
pub fn voices_list_endpoint(region: Region) -> (r: String)
    ensures
        r@ == "https://"@ + spec_tts_host(region) + "/cognitiveservices/voices/list"@,
{
    let mut out = String::from_str("https://");
    out.append(region.as_string());
    out.append(".tts.speech.microsoft.com");
    out.append("/cognitiveservices/voices/list");
    proof {
        assert(out@ =~= "https://"@ + spec_tts_host(region) + "/cognitiveservices/voices/list"@);
    }
    out
}

/// The URL a bearer token is requested from.
pub fn token_endpoint(region: Region) -> (r: String)
    ensures
        r@ == "https://"@ + spec_token_host(region) + "/sts/v1.0/issuetoken"@,
{
    let mut out = String::from_str("https://");
    out.append(region.as_string());
    out.append(".api.cognitive.microsoft.com");
    out.append("/sts/v1.0/issuetoken");
    proof {
        assert(out@ =~= "https://"@ + spec_token_host(region) + "/sts/v1.0/issuetoken"@);
    }
    out
}

/// The Authorization header value carrying a bearer token.
pub fn bearer_header(token: &str) -> (r: String)
    ensures
        r@ == "Bearer: "@ + token@,
{
    let mut out = String::from_str("Bearer: ");
    out.append(token);
    out
}

} // verus!
