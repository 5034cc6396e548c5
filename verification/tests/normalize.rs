use game_deals::record::{Game, GameOpt, Source};
use game_deals::text::{get_attr_text, get_currency, get_element_text};

#[test]
fn currency_prefix_of_priced_text() {
    assert_eq!(get_currency("R$49,90"), "R$");
}

#[test]
fn currency_of_empty_text_is_empty() {
    assert_eq!(get_currency(""), "");
}

#[test]
fn currency_of_all_numeric_text_is_empty() {
    assert_eq!(get_currency("49,90"), "");
}

#[test]
fn currency_stops_at_first_digit() {
    assert_eq!(get_currency("US$ 9.99"), "US$ ");
}

#[test]
fn element_text_joins_trims_and_concatenates() {
    let elements = vec![
        vec!["  Half".to_string(), "Life  ".to_string()],
        vec!["\nB".to_string()],
    ];
    assert_eq!(get_element_text(&elements), "Half LifeB");
}

#[test]
fn element_text_collapses_embedded_newlines() {
    let elements = vec![vec!["a\nb".to_string()]];
    assert_eq!(get_element_text(&elements), "a b");
}

#[test]
fn element_text_of_no_elements_is_empty() {
    let elements: Vec<Vec<String>> = Vec::new();
    assert_eq!(get_element_text(&elements), "");
}

#[test]
fn attr_text_unwraps_present_value() {
    assert_eq!(get_attr_text(&Some("hl.jpg".to_string())), "hl.jpg");
}

#[test]
fn attr_text_of_absent_value_is_empty() {
    assert_eq!(get_attr_text(&None), "");
}

fn sample_game(site: Source) -> Game {
    Game {
        site,
        name: "Portal".to_string(),
        currency: "R$".to_string(),
        full_price: "R$20,00".to_string(),
        discounted_price: "R$10,00".to_string(),
        discount: "-50%".to_string(),
        img_url: "portal.jpg".to_string(),
    }
}

#[test]
fn display_prefers_discounted_price() {
    let opt = GameOpt { game: Some(sample_game(Source::Steam)) };
    assert_eq!(opt.display_line(), "Price: R$10,00\nDiscount: -50%");
}

#[test]
fn display_falls_back_to_full_price() {
    let mut g = sample_game(Source::Steam);
    g.discounted_price = String::new();
    let opt = GameOpt { game: Some(g) };
    assert_eq!(opt.display_line(), "Price: R$20,00\nDiscount: -50%");
}

#[test]
fn display_prefixes_currency_for_nuuvem() {
    let mut g = sample_game(Source::Nuuvem);
    g.full_price = "20,00".to_string();
    g.discounted_price = "10,00".to_string();
    let opt = GameOpt { game: Some(g) };
    assert_eq!(opt.display_line(), "Price: R$10,00\nDiscount: -50%");
}

#[test]
fn display_of_absent_record_is_not_found() {
    let opt = GameOpt { game: None };
    assert_eq!(opt.display_line(), "Not found!");
}

#[test]
fn source_titles() {
    assert_eq!(Source::Steam.title(), "Steam");
    assert_eq!(Source::Epic.title(), "Epic Games");
    assert_eq!(Source::Nuuvem.title(), "Nuuvem");
}
