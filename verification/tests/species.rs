use pokespearify::api_clients::pokeapi::{
    FlavourTextEntry, PokeApiLanguage, PokemonSpeciesResponse,
};
use pokespearify::api_clients::ApiError;

fn entry(text: &str, lang: &str) -> FlavourTextEntry {
    FlavourTextEntry {
        flavor_text: text.to_string(),
        language: PokeApiLanguage { name: lang.to_string() },
    }
}

fn mixed_response() -> PokemonSpeciesResponse {
    PokemonSpeciesResponse {
        flavor_text_entries: vec![
            entry("Spits fire that is hot enough to melt boulders.", "en"),
            entry("Kotetsu no youna katai uroko.", "ja"),
            entry("Known to cause forest fires unintentionally.", "en"),
            entry("Crache des flammes.", "fr"),
            entry("Its wings can carry it close to an altitude of 4,600 feet.", "en"),
        ],
    }
}

#[test]
fn test_english_entries() {
    let resp = mixed_response();
    assert!(resp
        .english_flavor_text_entries()
        .iter()
        .all(|e| e.language.name == "en"));
}

#[test]
fn test_english_entries_kept_in_order() {
    let resp = mixed_response();
    let english = resp.english_flavor_text_entries();
    assert_eq!(english.len(), 3);
    assert_eq!(
        english[0].flavor_text(),
        "Spits fire that is hot enough to melt boulders."
    );
    assert_eq!(
        english[1].flavor_text(),
        "Known to cause forest fires unintentionally."
    );
    assert_eq!(
        english[2].flavor_text(),
        "Its wings can carry it close to an altitude of 4,600 feet."
    );
}

#[test]
fn test_english_entries_empty_input() {
    let resp = PokemonSpeciesResponse {
        flavor_text_entries: vec![],
    };
    assert!(resp.english_flavor_text_entries().is_empty());
}

#[test]
fn test_english_entries_rejects_near_misses() {
    let resp = PokemonSpeciesResponse {
        flavor_text_entries: vec![entry("a", "EN"), entry("b", "eng"), entry("c", "e")],
    };
    assert!(resp.english_flavor_text_entries().is_empty());
}

#[test]
fn test_species_request_url_joins_path_and_name() {
    let url = pokespearify::api_clients::pokeapi::species_request_url(
        "http://example.com/",
        "charizard",
    )
    .unwrap();
    assert_eq!(url, "http://example.com/api/v2/pokemon-species/charizard");
}

#[test]
fn test_species_request_url_rejects_bad_base() {
    let err =
        pokespearify::api_clients::pokeapi::species_request_url("not a base url", "charizard")
            .unwrap_err();
    assert!(matches!(err, ApiError::Url));
}

#[test]
fn test_species_outcome_non_success_status() {
    let out = pokespearify::api_clients::pokeapi::species_response_outcome(
        404,
        Some(mixed_response()),
    );
    match out {
        Err(ApiError::Network { status }) => assert_eq!(status, Some(404)),
        other => panic!("expected a network failure, got {:?}", other),
    }
}

#[test]
fn test_species_outcome_undecodable_body() {
    let out = pokespearify::api_clients::pokeapi::species_response_outcome(200, None);
    assert!(matches!(out, Err(ApiError::JsonDecoding)));
}

#[test]
fn test_species_outcome_success() {
    let out =
        pokespearify::api_clients::pokeapi::species_response_outcome(200, Some(mixed_response()));
    assert_eq!(out.unwrap(), mixed_response());
}
