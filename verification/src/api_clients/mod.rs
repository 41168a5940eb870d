//! Shared vocabulary of the two upstream API clients: the error taxonomy and
//! URL resolution against a provider's base URL.

use vstd::prelude::*;

pub mod pokeapi;
pub mod shakespeare;

verus! {

/// Possible errors from external API calls.
///
/// Every upstream call produces either a typed success value or one of these
/// variants; the handler only ever distinguishes `RateLimit` from the rest.
#[derive(Debug)]
pub enum ApiError {
    /// The response body did not decode into the expected shape.
    JsonDecoding,
    /// The translation provider signalled that the request quota is exhausted.
    RateLimit,
    /// Transport failure or non-success HTTP status; carries the status when
    /// a response was received at all.
    Network { status: Option<u16> },
    /// A provider URL could not be formed.
    Url,
    /// Catch-all for conditions no other variant covers.
    Unspecified,
}

impl Clone for ApiError {
    fn clone(&self) -> (r: Self)
        ensures
            r == *self,
    {
        match self {
            ApiError::JsonDecoding => ApiError::JsonDecoding,
            ApiError::RateLimit => ApiError::RateLimit,
            ApiError::Network { status } => ApiError::Network { status: *status },
            ApiError::Url => ApiError::Url,
            ApiError::Unspecified => ApiError::Unspecified,
        }
    }
}

impl ApiError {
    /// A short description of the error, for the diagnostic log that
    /// accompanies every failure response.
    pub fn message(&self) -> (r: String)
        ensures
            self is JsonDecoding ==> r@ == "failed to decode the response body"@,
            self is RateLimit ==> r@ == "upstream request quota exhausted"@,
            self is Network ==> r@ == "network failure"@,
            self is Url ==> r@ == "failed to form the provider URL"@,
            self is Unspecified ==> r@ == "Unspecified API Error"@,
    {
        match self {
            ApiError::JsonDecoding => "failed to decode the response body".to_owned(),
            ApiError::RateLimit => "upstream request quota exhausted".to_owned(),
            ApiError::Network { .. } => "network failure".to_owned(),
            ApiError::Url => "failed to form the provider URL".to_owned(),
            ApiError::Unspecified => "Unspecified API Error".to_owned(),
        }
    }
}

/// The statuses both clients treat as upstream failures: the client and
/// server error classes.
pub open spec fn is_error_status(status: u16) -> bool {
    400 <= status <= 599
}

#[verifier::external_type_specification]
#[verifier::external_body]
pub struct ExParseError(url::ParseError);

/// The URL obtained by resolving `input` against the absolute URL `base`, or
/// `None` where the pair does not form a valid URL. Stands for what
/// `url::Url::join` computes; the resolution depends on the two strings alone.
pub uninterp spec fn joined_url(base: Seq<char>, input: Seq<char>) -> Option<Seq<char>>;

/// Relies on `url::Url::parse` and `url::Url::join`: parsing the base URL and
/// resolving `input` against it is a function of the two strings alone.
#[verifier::external_body]
fn resolve_url(base: &str, input: &str) -> (r: Result<String, url::ParseError>)
    ensures
        r matches Ok(u) ==> joined_url(base@, input@) == Some(u@),
        r is Err ==> joined_url(base@, input@) is None,
{
    url::Url::parse(base).and_then(|b| b.join(input)).map(String::from)
}

/// Resolve a provider resource path against a base URL, folding a malformed
/// pair into the library's URL-construction error.
pub fn resolve_provider_url(base: &str, input: &str) -> (r: Result<String, ApiError>)
    ensures
        r matches Ok(u) ==> joined_url(base@, input@) == Some(u@),
        r matches Err(e) ==> e is Url && joined_url(base@, input@) is None,
{
    match resolve_url(base, input) {
        Ok(u) => Ok(u),
        Err(_) => Err(ApiError::Url),
    }
}

} // verus!
