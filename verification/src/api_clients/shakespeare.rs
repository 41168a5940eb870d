//! Translation client: the decision logic behind the text-rewriting call.
//!
//! The POST itself is made by the surrounding process; this module forms the
//! request URL and payload and classifies the outcome, turning the upstream
//! rate-limit signal (HTTP 429) into the distinguished error variant.

use vstd::prelude::*;

use crate::api_clients::{is_error_status, joined_url, resolve_provider_url, ApiError};

verus! {

/// The payload sent to the translation provider: the text to rewrite, under a
/// single field. Constructed fresh per call, never reused across requests.
#[derive(Debug, PartialEq)]
pub struct TranslationRequest {
    pub text: String,
}

impl TranslationRequest {
    /// Build the request payload for one text.
    pub fn from(text: &str) -> (r: Self)
        ensures
            r.text@ == text@,
    {
        TranslationRequest { text: text.to_owned() }
    }
}

/// The wrapper object inside the provider's response envelope.
#[derive(Debug, PartialEq)]
pub struct TranslationContents {
    pub translated: String,
}

/// The provider's response envelope: the rewritten text sits one level down.
#[derive(Debug, PartialEq)]
pub struct TranslationResponse {
    pub contents: TranslationContents,
}

impl TranslationResponse {
    /// The rewritten text, lifted out of the envelope.
    pub fn translation(&self) -> (r: &str)
        ensures
            r@ == self.contents.translated@,
    {
        self.contents.translated.as_str()
    }
}

/// The fixed resource path of the translator, joined with the base URL.
pub open spec fn translator_path() -> Seq<char> {
    "translate/shakespeare.json"@
}

/// Form the translation URL: the fixed resource path joined onto the base
/// URL. A pair that forms no valid URL is the URL-construction error.
pub fn translation_request_url(base: &str) -> (r: Result<String, ApiError>)
    ensures
        r matches Ok(u) ==> joined_url(base@, translator_path()) == Some(u@),
        r matches Err(e) ==> e is Url && joined_url(base@, translator_path()) is None,
{
    resolve_provider_url(base, "translate/shakespeare.json")
}

/// What the translation call yields for a given HTTP status and decoded body.
pub open spec fn translation_outcome_spec(status: u16, decoded: Option<TranslationResponse>) -> Result<
    String,
    ApiError,
> {
    if status == 429 {
        Err(ApiError::RateLimit)
    } else if is_error_status(status) {
        Err(ApiError::Network { status: Some(status) })
    } else {
        match decoded {
            Some(resp) => Ok(resp.contents.translated),
            None => Err(ApiError::JsonDecoding),
        }
    }
}

/// Status-code and decoding policy of the translation client: HTTP 429 is the
/// rate-limited variant; any other non-success status is a network failure
/// carrying that status; a successful status whose body did not decode is a
/// malformed-payload failure; otherwise the result is the rewritten text
/// lifted out of the envelope.
pub fn translation_outcome(status: u16, decoded: Option<TranslationResponse>) -> (r: Result<
    String,
    ApiError,
>)
    ensures
        r == translation_outcome_spec(status, decoded),
{
    if status == 429 {
        Err(ApiError::RateLimit)
    } else if 400 <= status && status <= 599 {
        Err(ApiError::Network { status: Some(status) })
    } else {
        match decoded {
            Some(resp) => Ok(resp.contents.translated),
            None => Err(ApiError::JsonDecoding),
        }
    }
}

} // verus!
