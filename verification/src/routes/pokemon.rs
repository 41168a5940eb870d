//! Orchestration handler for `GET /pokemon/{name}`: the only component with
//! business decisions.
//!
//! Per request the handler moves linearly through fetch, select, translate and
//! respond. The two outbound network calls are performed by the surrounding
//! process; this module decides, from each outcome, the next step:
//! [`start`] forms the species lookup, [`on_species_result`] selects one
//! English entry at random and forms the translation call, and
//! [`on_translation_result`] shapes the final reply. Both failure branches end
//! in a reply without touching the remaining steps.

use rand::Rng;
use vstd::prelude::*;

use crate::api_clients::pokeapi::{
    english_entries_of, species_outcome_spec, species_path, species_request_url,
    PokemonSpeciesResponse,
};
use crate::api_clients::shakespeare::{
    translation_outcome_spec, translation_request_url, translator_path, TranslationRequest,
    TranslationResponse,
};
use crate::api_clients::{is_error_status, joined_url, ApiError};
use crate::routes::{HttpReply, ReplyBody};

verus! {

/// The entity returned to the caller on success: the name echoed from the
/// request path and the rewritten description.
#[derive(Debug)]
pub struct ShakespearedDescription {
    pub name: String,
    pub description: String,
}

impl ShakespearedDescription {
    pub fn new(name: String, description: String) -> (r: Self)
        ensures
            r.name == name,
            r.description == description,
    {
        Self { name, description }
    }
}

/// What the handler asks its surroundings to do next. The network steps carry
/// everything the call needs; the surroundings hand the outcome back into the
/// next handler function.
#[derive(Debug)]
pub enum HandlerStep {
    /// Issue a GET to the species provider at this URL.
    FetchSpecies { url: String },
    /// POST this payload to the translation provider at this URL.
    Translate { url: String, request: TranslationRequest },
    /// Emit this reply; the request is finished.
    Respond { reply: HttpReply },
}

/// The opaque failure reply: 500 with an empty body.
pub open spec fn server_error_reply(r: HttpReply) -> bool {
    r.status == 500 && r.body is Empty
}

/// The fixed human-readable message of the rate-limit reply.
pub open spec fn rate_limit_message() -> Seq<char> {
    "Too many requests, try again later."@
}

/// The reply surfacing upstream rate limiting: 429 with the fixed message.
pub open spec fn rate_limited_reply(r: HttpReply) -> bool {
    r.status == 429 && (r.body matches ReplyBody::Message(m) && m@ == rate_limit_message())
}

/// The step ends the request with the opaque failure reply.
pub open spec fn responds_server_error(step: HandlerStep) -> bool {
    step matches HandlerStep::Respond { reply } && server_error_reply(reply)
}

fn internal_server_error() -> (r: HttpReply)
    ensures
        server_error_reply(r),
{
    HttpReply { status: 500, body: ReplyBody::Empty }
}

/// What [`start`] decides: fetch from the resolved species URL, or end the
/// request with the opaque failure where no valid URL can be formed.
pub open spec fn start_step_matches(poke_base: Seq<char>, name: Seq<char>, step: HandlerStep) -> bool {
    match joined_url(poke_base, species_path()) {
        Some(b) => match joined_url(b, name) {
            Some(u) => step matches HandlerStep::FetchSpecies { url } && url@ == u,
            None => responds_server_error(step),
        },
        None => responds_server_error(step),
    }
}

/// First step of a request: form the species lookup URL for the identifier
/// supplied in the path.
pub fn start(poke_base: &str, name: &str) -> (step: HandlerStep)
    ensures
        start_step_matches(poke_base@, name@, step),
{
    match species_request_url(poke_base, name) {
        Ok(url) => HandlerStep::FetchSpecies { url },
        Err(_) => HandlerStep::Respond { reply: internal_server_error() },
    }
}

/// What [`on_species_result`] decides: any lookup failure, an empty English
/// candidate set, or a malformed translator URL ends the request with the
/// opaque failure; otherwise the translation of one of the English entries is
/// requested — which one is left open, the selection being random.
pub open spec fn species_step_matches(
    translate_base: Seq<char>,
    result: Result<PokemonSpeciesResponse, ApiError>,
    step: HandlerStep,
) -> bool {
    match result {
        Ok(resp) => {
            let english = english_entries_of(resp.flavor_text_entries@);
            if english.len() == 0 {
                responds_server_error(step)
            } else {
                match joined_url(translate_base, translator_path()) {
                    Some(u) => step matches HandlerStep::Translate { url, request } && url@ == u
                        && (exists|i: int|
                        0 <= i < english.len() && request.text@ == english[i].flavor_text@),
                    None => responds_server_error(step),
                }
            }
        },
        Err(_) => responds_server_error(step),
    }
}

/// Relies on `rand::Rng::gen_range` on the thread-local generator: the draw
/// lies below `n`. Which value comes back is left open — every caller copes
/// with any index in range, and two calls may differ.
#[verifier::external_body]
fn random_below(n: usize) -> (r: usize)
    requires
        n > 0,
    ensures
        r < n,
{
    let mut rng = rand::thread_rng();
    rng.gen_range(0..n)
}

/// Second step: given the outcome of the species lookup, either end the
/// request with the opaque failure (failed lookup; no English entry, a state
/// the upstream allows and this handler answers like any other bad payload;
/// or a malformed translator URL) or select one English entry uniformly at
/// random — a fresh draw per request — and ask for its translation.
pub fn on_species_result(
    translate_base: &str,
    result: Result<PokemonSpeciesResponse, ApiError>,
) -> (step: HandlerStep)
    ensures
        species_step_matches(translate_base@, result, step),
{
    let resp = match result {
        Ok(resp) => resp,
        Err(_) => {
            return HandlerStep::Respond { reply: internal_server_error() };
        },
    };
    let english = resp.english_flavor_text_entries();
    if english.len() == 0 {
        return HandlerStep::Respond { reply: internal_server_error() };
    }
    let idx = random_below(english.len());
    let choice = &english[idx];
    match translation_request_url(translate_base) {
        Ok(url) => {
            let request = TranslationRequest::from(choice.flavor_text());
            proof {
                let ghost english_spec = english_entries_of(resp.flavor_text_entries@);
                assert(0 <= idx < english_spec.len() && request.text@
                    == english_spec[idx as int].flavor_text@);
            }
            HandlerStep::Translate { url, request }
        },
        Err(_) => HandlerStep::Respond { reply: internal_server_error() },
    }
}

/// What [`on_translation_result`] decides: rate limiting is surfaced as the
/// 429 reply with the fixed message, every other failure as the opaque 500,
/// and success as 200 with the name echoed beside the rewritten text.
pub open spec fn translation_reply_matches(
    name: Seq<char>,
    result: Result<String, ApiError>,
    r: HttpReply,
) -> bool {
    match result {
        Ok(t) => r.status == 200 && (r.body matches ReplyBody::Description(d) && d.name@ == name
            && d.description@ == t@),
        Err(e) => if e is RateLimit {
            rate_limited_reply(r)
        } else {
            server_error_reply(r)
        },
    }
}

/// Final step: shape the translation outcome into the HTTP-visible reply.
pub fn on_translation_result(name: &str, result: Result<String, ApiError>) -> (r: HttpReply)
    ensures
        translation_reply_matches(name@, result, r),
{
    match result {
        Ok(t) => HttpReply {
            status: 200,
            body: ReplyBody::Description(ShakespearedDescription::new(name.to_owned(), t)),
        },
        Err(ApiError::RateLimit) => HttpReply {
            status: 429,
            body: ReplyBody::Message("Too many requests, try again later.".to_owned()),
        },
        Err(_) => internal_server_error(),
    }
}

/// Law: when the species lookup succeeded with at least one English entry and
/// the handler proceeded, the translation it asked for is of one of the
/// English entries' raw texts, and a successful translation outcome yields the
/// 200 reply whose description is exactly that output.
pub proof fn law_success_description(
    translate_base: Seq<char>,
    name: Seq<char>,
    resp: PokemonSpeciesResponse,
    step: HandlerStep,
    t: String,
    r: HttpReply,
)
    requires
        english_entries_of(resp.flavor_text_entries@).len() > 0,
        joined_url(translate_base, translator_path()) is Some,
        species_step_matches(translate_base, Ok(resp), step),
        translation_reply_matches(name, Ok(t), r),
    ensures
        step matches HandlerStep::Translate { url, request } && (exists|i: int|
            0 <= i < english_entries_of(resp.flavor_text_entries@).len() && request.text@
                == english_entries_of(resp.flavor_text_entries@)[i].flavor_text@),
        r.status == 200,
        r.body matches ReplyBody::Description(d) && d.name@ == name && d.description@ == t@,
{
}

/// Law: HTTP 429 from the translation provider yields the 429 reply with the
/// fixed message — the species payload and the chosen entry are not consulted.
pub proof fn law_rate_limit_surfaced(
    name: Seq<char>,
    decoded: Option<TranslationResponse>,
    r: HttpReply,
)
    requires
        translation_reply_matches(name, translation_outcome_spec(429, decoded), r),
    ensures
        r.status == 429,
        r.body matches ReplyBody::Message(m) && m@ == rate_limit_message(),
{
}

/// Law: a failed species lookup — in particular a non-success status or an
/// undecodable body — ends the request with the opaque 500 reply, and the
/// handler never proceeds to the translation step.
pub proof fn law_species_failure_is_opaque(
    translate_base: Seq<char>,
    status: u16,
    decoded: Option<PokemonSpeciesResponse>,
    step: HandlerStep,
)
    requires
        is_error_status(status) || decoded is None,
        species_step_matches(translate_base, species_outcome_spec(status, decoded), step),
    ensures
        !(step is Translate),
        step matches HandlerStep::Respond { reply } && server_error_reply(reply),
{
}

/// Law: a non-success, non-429 status from the translation provider ends the
/// request with the opaque 500 reply.
pub proof fn law_translation_failure_is_opaque(
    name: Seq<char>,
    status: u16,
    decoded: Option<TranslationResponse>,
    r: HttpReply,
)
    requires
        is_error_status(status),
        status != 429,
        translation_reply_matches(name, translation_outcome_spec(status, decoded), r),
    ensures
        r.status == 500,
        r.body is Empty,
{
}

} // verus!
