use game_deals::aggregate::{compare, search_in, NetworkError};
use game_deals::record::{Game, GamesVec, Source};

fn game(site: Source, name: &str) -> Game {
    Game {
        site,
        name: name.to_string(),
        currency: "R$".to_string(),
        full_price: "R$20,00".to_string(),
        discounted_price: "R$10,00".to_string(),
        discount: "-50%".to_string(),
        img_url: "img.jpg".to_string(),
    }
}

fn set(games: Vec<Game>) -> GamesVec {
    GamesVec { games }
}

fn failed() -> NetworkError {
    NetworkError { message: "connection refused".to_string() }
}

#[test]
fn canonical_name_comes_from_steam_first() {
    let steam = set(vec![game(Source::Steam, "Half-Life")]);
    let nuuvem = set(Vec::new());
    let r = compare("half life", Ok(steam), Ok(nuuvem));
    assert_eq!(r.canonical_name, "Half-Life");
    assert_eq!(r.img_url, "img.jpg");
    assert_eq!(r.per_source.len(), 2);
    assert_eq!(r.per_source[0].source, Source::Steam);
    assert!(r.per_source[0].record.game.is_some());
    assert_eq!(r.per_source[1].source, Source::Nuuvem);
    assert!(r.per_source[1].record.game.is_none());
}

#[test]
fn canonical_name_falls_back_to_nuuvem() {
    let steam = set(Vec::new());
    let nuuvem = set(vec![game(Source::Nuuvem, "Portal")]);
    let r = compare("portal", Ok(steam), Ok(nuuvem));
    assert_eq!(r.canonical_name, "Portal");
    assert!(r.per_source[0].record.game.is_none());
    assert!(r.per_source[1].record.game.is_some());
}

#[test]
fn empty_results_fall_back_to_the_query() {
    let r = compare("obscure title", Ok(set(Vec::new())), Ok(set(Vec::new())));
    assert_eq!(r.canonical_name, "obscure title");
    assert_eq!(r.img_url, "");
    assert!(r.per_source.iter().all(|m| m.record.game.is_none()));
}

#[test]
fn all_failed_fetches_still_yield_a_whole_comparison() {
    let r = compare("Half-Life", Err(failed()), Err(failed()));
    assert_eq!(r.canonical_name, "Half-Life");
    assert_eq!(r.img_url, "");
    assert_eq!(r.per_source.len(), 2);
    assert_eq!(r.per_source[0].source, Source::Steam);
    assert_eq!(r.per_source[1].source, Source::Nuuvem);
    assert!(r.per_source.iter().all(|m| m.record.game.is_none()));
}

#[test]
fn one_failed_fetch_does_not_hide_the_other_source() {
    let nuuvem = set(vec![game(Source::Nuuvem, "Half-Life")]);
    let r = compare("half-life", Err(failed()), Ok(nuuvem));
    assert_eq!(r.canonical_name, "Half-Life");
    assert!(r.per_source[0].record.game.is_none());
    assert!(r.per_source[1].record.game.is_some());
}

#[test]
fn per_source_listing_descends_by_source_name() {
    let r = compare("x", Ok(set(Vec::new())), Ok(set(Vec::new())));
    let names: Vec<&str> = r.per_source.iter().map(|m| m.source.title()).collect();
    assert_eq!(names, vec!["Steam", "Nuuvem"]);
    assert!(names.windows(2).all(|w| w[0] > w[1]));
}

#[test]
fn name_match_is_case_insensitive() {
    let games = set(vec![game(Source::Steam, "HALF-LIFE")]);
    let found = search_in(&games, "half-life");
    assert!(found.game.is_some());
    assert_eq!(found.game.unwrap().name, "HALF-LIFE");
}

#[test]
fn first_match_wins_in_document_order() {
    let games = set(vec![
        game(Source::Steam, "Portal"),
        game(Source::Steam, "Half-Life"),
        game(Source::Steam, "half-life"),
    ]);
    let found = search_in(&games, "Half-LIFE");
    assert_eq!(found.game.unwrap().name, "Half-Life");
}

#[test]
fn unmatched_name_is_not_found() {
    let games = set(vec![game(Source::Steam, "Portal")]);
    assert!(search_in(&games, "Half-Life").game.is_none());
}

#[test]
fn comparison_matches_are_exact_not_substring() {
    let steam = set(vec![game(Source::Steam, "Half-Life 2")]);
    let nuuvem = set(vec![game(Source::Nuuvem, "Half-Life")]);
    let r = compare("anything", Ok(steam), Ok(nuuvem));
    assert_eq!(r.canonical_name, "Half-Life 2");
    assert!(r.per_source[0].record.game.is_some());
    assert!(r.per_source[1].record.game.is_none());
}
