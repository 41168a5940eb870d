//! Species client: the decision logic behind the species-description lookup.
//!
//! The network call itself is made by the surrounding process; this module
//! forms the request URL, classifies the outcome (status code and decoded
//! body) into the error taxonomy, and filters the candidate texts down to the
//! English entries.

use vstd::prelude::*;

use crate::api_clients::{is_error_status, joined_url, resolve_provider_url, ApiError};

verus! {

/// The language tag of a flavor-text entry, a short code such as "en".
#[derive(Debug, PartialEq)]
pub struct PokeApiLanguage {
    pub name: String,
}

impl Clone for PokeApiLanguage {
    fn clone(&self) -> (r: Self)
        ensures
            r == *self,
    {
        PokeApiLanguage { name: self.name.clone() }
    }
}

/// One candidate description: the raw text and the language it is written in.
/// Entries are filtered, never mutated.
#[derive(Debug, PartialEq)]
pub struct FlavourTextEntry {
    pub flavor_text: String,
    pub language: PokeApiLanguage,
}

impl Clone for FlavourTextEntry {
    fn clone(&self) -> (r: Self)
        ensures
            r == *self,
    {
        FlavourTextEntry { flavor_text: self.flavor_text.clone(), language: self.language.clone() }
    }
}

impl FlavourTextEntry {
    /// Get a reference to the flavour text entry's flavor text.
    pub fn flavor_text(&self) -> (r: &str)
        ensures
            r@ == self.flavor_text@,
    {
        self.flavor_text.as_str()
    }
}

/// The normalized species lookup result: the ordered candidate texts, which
/// may be empty (a species with no entries is a valid upstream state).
#[derive(Debug, PartialEq)]
pub struct PokemonSpeciesResponse {
    pub flavor_text_entries: Vec<FlavourTextEntry>,
}

/// An entry counts as English exactly when its language tag is "en".
pub open spec fn is_english(e: FlavourTextEntry) -> bool {
    e.language.name@ == "en"@
}

/// The English entries of a candidate sequence, in their upstream order.
pub open spec fn english_entries_of(entries: Seq<FlavourTextEntry>) -> Seq<FlavourTextEntry> {
    entries.filter(|e: FlavourTextEntry| is_english(e))
}

impl PokemonSpeciesResponse {
    /// The entries whose language tag is exactly "en", in upstream order.
    pub fn english_flavor_text_entries(&self) -> (r: Vec<FlavourTextEntry>)
        ensures
            r@ == english_entries_of(self.flavor_text_entries@),
    {
        let en: String = "en".to_owned();
        let mut out: Vec<FlavourTextEntry> = Vec::new();
        let n = self.flavor_text_entries.len();
        let mut i: usize = 0;
        while i < n
            invariant
                n == self.flavor_text_entries@.len(),
                i <= n,
                en@ == "en"@,
                out@ == english_entries_of(self.flavor_text_entries@.take(i as int)),
            decreases n - i,
        {
            let entry = &self.flavor_text_entries[i];
            if entry.language.name == en {
                out.push(entry.clone());
            }
            proof {
                reveal_with_fuel(Seq::filter, 2);
                let all = self.flavor_text_entries@;
                assert(all.take(i + 1).drop_last() =~= all.take(i as int));
                assert(all.take(i + 1).last() == all[i as int]);
            }
            i += 1;
        }
        proof {
            assert(self.flavor_text_entries@.take(n as int) =~= self.flavor_text_entries@);
        }
        out
    }
}

/// Law: the English-entry filter never yields an entry whose language tag is
/// not exactly "en", for any input sequence of entries.
pub proof fn law_english_entries_only_english(entries: Seq<FlavourTextEntry>, i: int)
    requires
        0 <= i < english_entries_of(entries).len(),
    ensures
        english_entries_of(entries)[i].language.name@ == "en"@,
{
    broadcast use vstd::seq_lib::group_filter_ensures;

    assert(is_english(english_entries_of(entries)[i]));
}

/// The fixed resource path of the species endpoint, joined with the base URL.
pub open spec fn species_path() -> Seq<char> {
    "api/v2/pokemon-species/"@
}

/// Form the species lookup URL: the fixed resource path joined onto the base
/// URL, then the identifier joined onto that. A pair that forms no valid URL
/// is the URL-construction error.
pub fn species_request_url(base: &str, pokemon: &str) -> (r: Result<String, ApiError>)
    ensures
        r matches Ok(u) ==> (joined_url(base@, species_path()) matches Some(b)
            && joined_url(b, pokemon@) == Some(u@)),
        r matches Err(e) ==> e is Url && (joined_url(base@, species_path()) matches Some(b)
            ==> joined_url(b, pokemon@) is None),
{
    let species_base = match resolve_provider_url(base, "api/v2/pokemon-species/") {
        Ok(u) => u,
        Err(e) => {
            return Err(e);
        },
    };
    resolve_provider_url(species_base.as_str(), pokemon)
}

/// What the species lookup yields for a given HTTP status and decoded body.
pub open spec fn species_outcome_spec(status: u16, decoded: Option<PokemonSpeciesResponse>) -> Result<
    PokemonSpeciesResponse,
    ApiError,
> {
    if is_error_status(status) {
        Err(ApiError::Network { status: Some(status) })
    } else {
        match decoded {
            Some(resp) => Ok(resp),
            None => Err(ApiError::JsonDecoding),
        }
    }
}

/// Status-code and decoding policy of the species client: a non-success
/// status is a network failure carrying that status; a successful status
/// whose body did not decode into the expected shape is a malformed-payload
/// failure; otherwise the decoded response is the result.
pub fn species_response_outcome(status: u16, decoded: Option<PokemonSpeciesResponse>) -> (r: Result<
    PokemonSpeciesResponse,
    ApiError,
>)
    ensures
        r == species_outcome_spec(status, decoded),
{
    if 400 <= status && status <= 599 {
        Err(ApiError::Network { status: Some(status) })
    } else {
        match decoded {
            Some(resp) => Ok(resp),
            None => Err(ApiError::JsonDecoding),
        }
    }
}

} // verus!
