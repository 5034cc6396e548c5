//! Source adapters: for each storefront, the request URL built from a query
//! and the result set extracted from the returned search page. Each adapter
//! walks the page with its fixed selector chain, cleans every field, and
//! keeps a row only under that source's composition rule.

use vstd::prelude::*;
use vstd::string::StringExecFns;
use vstd::string::StringSliceAdditionalSpecFns;
use crate::dom::{
    extract_field_attr, extract_field_texts, field_attrs, field_texts, make_selector, row_count,
    selector_is_valid,
};
use crate::record::{opt_game_view, games_view, Game, GameView, GamesVec, Source};
use crate::text::{
    attr_or_empty, clean_elements, currency_prefix, get_attr_text, get_currency, get_element_text,
};

verus! {

// --- query URL building ---

/// A byte the www-form-urlencoded serializer passes through unchanged.
pub open spec fn form_unchanged_byte(b: u8) -> bool {
    b == 0x2a || b == 0x2d || b == 0x2e || b == 0x5f || (0x30 <= b && b <= 0x39) || (0x41 <= b
        && b <= 0x5a) || (0x61 <= b && b <= 0x7a)
}

/// The upper-case hexadecimal digit for a value below sixteen.
pub open spec fn hex_upper_digit(d: u8) -> char {
    seq!['0', '1', '2', '3', '4', '5', '6', '7', '8', '9', 'A', 'B', 'C', 'D', 'E', 'F'][d as int]
}

/// How one byte serializes: alphanumerics and `*-._` unchanged, a space as
/// `+`, and every other byte percent-encoded in upper-case hexadecimal.
pub open spec fn encoded_byte(b: u8) -> Seq<char> {
    if form_unchanged_byte(b) {
        seq![b as char]
    } else if b == 0x20 {
        seq!['+']
    } else {
        seq!['%', hex_upper_digit(b / 16), hex_upper_digit(b % 16)]
    }
}

/// The www-form-urlencoded serialization of a byte string.
pub open spec fn form_encoded(bytes: Seq<u8>) -> Seq<char>
    decreases bytes.len(),
{
    if bytes.len() == 0 {
        Seq::empty()
    } else {
        encoded_byte(bytes[0]) + form_encoded(bytes.drop_first())
    }
}

/// Relies on `url::form_urlencoded::byte_serialize`: the
/// www-form-urlencoded byte serializer, applied to the query's UTF-8 bytes.
#[verifier::external_body]
fn url_encode(s: &str) -> (r: String)
    ensures
        r@ == form_encoded(s.spec_bytes()),
{
    url::form_urlencoded::byte_serialize(s.as_bytes()).collect()
}

/// The Steam search URL for a query.
pub fn steam_url(game: &str) -> (r: String)
    ensures
        r@ == "https://store.steampowered.com/search/?term="@ + form_encoded(game.spec_bytes()),
{
    let mut u = String::from_str("https://store.steampowered.com/search/?term=");
    let e = url_encode(game);
    u.append(e.as_str());
    u
}

/// The Epic Games search URL for a query, with its fixed sorting and count
/// parameters appended.
pub fn epic_url(game: &str) -> (r: String)
    ensures
        r@ == "https://store.epicgames.com/pt-BR/browse?q="@ + form_encoded(game.spec_bytes())
            + "&sortBy=relevancy&sortDir=DESC&count=40"@,
{
    let mut u = String::from_str("https://store.epicgames.com/pt-BR/browse?q=");
    let e = url_encode(game);
    u.append(e.as_str());
    u.append("&sortBy=relevancy&sortDir=DESC&count=40");
    u
}

/// The Nuuvem search URL for a query.
pub fn nuuvem_url(game: &str) -> (r: String)
    ensures
        r@ == "https://www.nuuvem.com/br-pt/catalog/page/1/search/"@ + form_encoded(
            game.spec_bytes(),
        ),
{
    let mut u = String::from_str("https://www.nuuvem.com/br-pt/catalog/page/1/search/");
    let e = url_encode(game);
    u.append(e.as_str());
    u
}

// --- record composition ---

/// The rule Steam and Epic share: a row is kept only when at least one price
/// field is non-empty, and an empty discount is normalized to `0%`.
pub open spec fn priced_game(
    site: Source,
    name: Seq<char>,
    currency: Seq<char>,
    full_price: Seq<char>,
    discounted_price: Seq<char>,
    discount: Seq<char>,
    img_url: Seq<char>,
) -> Option<GameView> {
    if discounted_price.len() > 0 || full_price.len() > 0 {
        Some(
            GameView {
                site,
                name,
                currency,
                full_price,
                discounted_price,
                discount: if discount.len() == 0 {
                    "0%"@
                } else {
                    discount
                },
                img_url,
            },
        )
    } else {
        None
    }
}

/// Nuuvem's rule: a row is kept only when the combined price is non-empty;
/// an absent discount forces both price fields to the `R$0` sentinel and the
/// discount to `0%`.
pub open spec fn nuuvem_game(
    name: Seq<char>,
    currency: Seq<char>,
    price: Seq<char>,
    discount: Seq<char>,
    img_url: Seq<char>,
) -> Option<GameView> {
    if price.len() > 0 {
        Some(
            GameView {
                site: Source::Nuuvem,
                name,
                currency,
                full_price: if discount.len() == 0 {
                    "R$0"@
                } else {
                    price
                },
                discounted_price: if discount.len() == 0 {
                    "R$0"@
                } else {
                    price
                },
                discount: if discount.len() == 0 {
                    "0%"@
                } else {
                    discount
                },
                img_url,
            },
        )
    } else {
        None
    }
}

/// One candidate record under the shared Steam/Epic composition rule, or
/// nothing when both price fields are empty.
pub fn build_priced_game(
    site: Source,
    name: String,
    currency: String,
    full_price: String,
    discounted_price: String,
    discount: String,
    img_url: String,
) -> (r: Option<Game>)
    ensures
        opt_game_view(r) == priced_game(
            site,
            name@,
            currency@,
            full_price@,
            discounted_price@,
            discount@,
            img_url@,
        ),
{
    if !discounted_price.as_str().is_empty() || !full_price.as_str().is_empty() {
        let discount_norm = if discount.as_str().is_empty() {
            String::from_str("0%")
        } else {
            discount
        };
        Some(Game { site, name, currency, full_price, discounted_price, discount: discount_norm, img_url })
    } else {
        None
    }
}

/// One candidate record under Nuuvem's composition rule, or nothing when the
/// combined price is empty.
pub fn build_nuuvem_game(
    name: String,
    currency: String,
    price: String,
    discount: String,
    img_url: String,
) -> (r: Option<Game>)
    ensures
        opt_game_view(r) == nuuvem_game(name@, currency@, price@, discount@, img_url@),
{
    if !price.as_str().is_empty() {
        let no_discount = discount.as_str().is_empty();
        Some(
            Game {
                site: Source::Nuuvem,
                name,
                currency,
                full_price: if no_discount {
                    String::from_str("R$0")
                } else {
                    price.clone()
                },
                discounted_price: if no_discount {
                    String::from_str("R$0")
                } else {
                    price
                },
                discount: if no_discount {
                    String::from_str("0%")
                } else {
                    discount
                },
                img_url,
            },
        )
    } else {
        None
    }
}

/// Every record a scrape keeps names its source, keeps a non-empty price in
/// at least one field, and carries a non-empty discount label.
pub open spec fn wf_record(g: GameView, site: Source) -> bool {
    &&& g.site == site
    &&& g.full_price.len() > 0 || g.discounted_price.len() > 0
    &&& g.discount.len() > 0
}

// --- Steam ---

pub open spec fn steam_container() -> Seq<char> {
    "div[id='search_resultsRows']"@
}

pub open spec fn steam_row() -> Seq<char> {
    "a.search_result_row"@
}

/// How many result rows Steam's page holds.
pub open spec fn steam_rows(html: Seq<char>) -> nat {
    row_count(html, steam_container(), steam_row())
}

/// The cleaned text of one field of one Steam result row.
pub open spec fn steam_text(html: Seq<char>, field: Seq<char>, i: int) -> Seq<char> {
    clean_elements(field_texts(html, steam_container(), steam_row(), field)[i])
}

/// The record Steam's row yields, or nothing where the row has no price.
pub open spec fn steam_game_at(html: Seq<char>, i: int) -> Option<GameView> {
    let disc = steam_text(html, "div.discount_final_price"@, i);
    priced_game(
        Source::Steam,
        steam_text(html, "span.title"@, i),
        currency_prefix(disc),
        steam_text(html, "div.discount_original_price"@, i),
        disc,
        steam_text(html, "div.discount_pct"@, i),
        attr_or_empty(
            field_attrs(html, steam_container(), steam_row(), "div.search_capsule > img"@, "src"@)[i],
        ),
    )
}

/// The records of Steam's first `n` rows, in document order.
pub open spec fn steam_games_prefix(html: Seq<char>, n: int) -> Seq<GameView>
    decreases n,
{
    if n <= 0 {
        Seq::empty()
    } else {
        steam_games_prefix(html, n - 1) + match steam_game_at(html, n - 1) {
            Some(g) => seq![g],
            None => Seq::empty(),
        }
    }
}

/// Steam's result set for a search page.
pub open spec fn steam_games(html: Seq<char>) -> Seq<GameView> {
    steam_games_prefix(html, steam_rows(html) as int)
}

/// Steam's adapter past its fetch: the result set extracted from the raw
/// search page. Absent or malformed markup yields an empty set, never an
/// error.
pub fn scrape_steam(html: &str) -> (r: GamesVec)
    ensures
        r@ == steam_games(html@),
        forall|i: int| 0 <= i < r@.len() ==> wf_record(#[trigger] r@[i], Source::Steam),
{
    let names = extract_field_texts(html, "div[id='search_resultsRows']", "a.search_result_row", "span.title");
    let fulls = extract_field_texts(html, "div[id='search_resultsRows']", "a.search_result_row", "div.discount_original_price");
    let discs = extract_field_texts(html, "div[id='search_resultsRows']", "a.search_result_row", "div.discount_final_price");
    let pcts = extract_field_texts(html, "div[id='search_resultsRows']", "a.search_result_row", "div.discount_pct");
    let imgs = extract_field_attr(html, "div[id='search_resultsRows']", "a.search_result_row", "div.search_capsule > img", "src");
    let n = names.len();
    let mut games: Vec<Game> = Vec::new();
    let mut i: usize = 0;
    while i < n
        invariant
            i <= n,
            n == steam_rows(html@),
            names@.len() == n,
            fulls@.len() == n,
            discs@.len() == n,
            pcts@.len() == n,
            imgs@.len() == n,
            names.deep_view() == field_texts(html@, steam_container(), steam_row(), "span.title"@),
            fulls.deep_view() == field_texts(html@, steam_container(), steam_row(), "div.discount_original_price"@),
            discs.deep_view() == field_texts(html@, steam_container(), steam_row(), "div.discount_final_price"@),
            pcts.deep_view() == field_texts(html@, steam_container(), steam_row(), "div.discount_pct"@),
            imgs.deep_view() == field_attrs(html@, steam_container(), steam_row(), "div.search_capsule > img"@, "src"@),
            games_view(games@) == steam_games_prefix(html@, i as int),
            forall|j: int| 0 <= j < games@.len() ==> wf_record(#[trigger] games@[j]@, Source::Steam),
        decreases n - i,
    {
        let name = get_element_text(&names[i]);
        let full = get_element_text(&fulls[i]);
        let disc = get_element_text(&discs[i]);
        let pct = get_element_text(&pcts[i]);
        let currency = get_currency(disc.as_str());
        let img = get_attr_text(&imgs[i]);
        let ghost pre = games@;
        let built = build_priced_game(Source::Steam, name, currency, full, disc, pct, img);
        proof {
            reveal_strlit("0%");
            assert(opt_game_view(built) == steam_game_at(html@, i as int));
        }
        if let Some(g) = built {
            games.push(g);
            proof {
                assert(games@ == pre.push(g));
                assert(games_view(games@) =~= games_view(pre).push(g@));
                assert(games_view(pre) + seq![g@] =~= games_view(pre).push(g@));
            }
        } else {
            proof {
                assert(steam_games_prefix(html@, i + 1) =~= steam_games_prefix(html@, i as int));
            }
        }
        i += 1;
    }
    let r = GamesVec { games };
    proof {
        assert(r@ =~= games_view(games@));
    }
    r
}

// --- Epic Games ---

pub open spec fn epic_container() -> Seq<char> {
    "main section ul"@
}

pub open spec fn epic_row() -> Seq<char> {
    "li > div > div > a > div > div"@
}

/// How many result rows Epic's page holds.
pub open spec fn epic_rows(html: Seq<char>) -> nat {
    row_count(html, epic_container(), epic_row())
}

/// The cleaned text of one field of one Epic result row.
pub open spec fn epic_text(html: Seq<char>, field: Seq<char>, i: int) -> Seq<char> {
    clean_elements(field_texts(html, epic_container(), epic_row(), field)[i])
}

/// The record Epic's row yields, or nothing where the row has no price.
pub open spec fn epic_game_at(html: Seq<char>, i: int) -> Option<GameView> {
    let disc = epic_text(
        html,
        "div:nth-child(2) > div:nth-child(3) > div > div:nth-child(2) > div > div:nth-child(2) > span"@,
        i,
    );
    priced_game(
        Source::Epic,
        epic_text(html, "div:nth-child(2) > div:nth-child(2) > div > div"@, i),
        currency_prefix(disc),
        epic_text(
            html,
            "div:nth-child(2) > div:nth-child(3) > div > div:nth-child(2) > div > div:first-child > span > div"@,
            i,
        ),
        disc,
        epic_text(
            html,
            "div:nth-child(2) > div:nth-child(3) > div > div:first-child > span > div"@,
            i,
        ),
        attr_or_empty(
            field_attrs(
                html,
                epic_container(),
                epic_row(),
                "div:first-child > div > div > div > div > img"@,
                "src"@,
            )[i],
        ),
    )
}

/// The records of Epic's first `n` rows, in document order.
pub open spec fn epic_games_prefix(html: Seq<char>, n: int) -> Seq<GameView>
    decreases n,
{
    if n <= 0 {
        Seq::empty()
    } else {
        epic_games_prefix(html, n - 1) + match epic_game_at(html, n - 1) {
            Some(g) => seq![g],
            None => Seq::empty(),
        }
    }
}

/// Epic's result set for a search page.
pub open spec fn epic_games(html: Seq<char>) -> Seq<GameView> {
    epic_games_prefix(html, epic_rows(html) as int)
}

/// Epic's adapter past its fetch: the result set extracted from the raw
/// search page. Absent or malformed markup yields an empty set, never an
/// error. The adapter is fully configured but stands outside the live
/// aggregation path, which compares Steam and Nuuvem only.
pub fn scrape_epic(html: &str) -> (r: GamesVec)
    ensures
        r@ == epic_games(html@),
        forall|i: int| 0 <= i < r@.len() ==> wf_record(#[trigger] r@[i], Source::Epic),
{
    let names = extract_field_texts(html, "main section ul", "li > div > div > a > div > div", "div:nth-child(2) > div:nth-child(2) > div > div");
    let fulls = extract_field_texts(html, "main section ul", "li > div > div > a > div > div", "div:nth-child(2) > div:nth-child(3) > div > div:nth-child(2) > div > div:first-child > span > div");
    let discs = extract_field_texts(html, "main section ul", "li > div > div > a > div > div", "div:nth-child(2) > div:nth-child(3) > div > div:nth-child(2) > div > div:nth-child(2) > span");
    let pcts = extract_field_texts(html, "main section ul", "li > div > div > a > div > div", "div:nth-child(2) > div:nth-child(3) > div > div:first-child > span > div");
    let imgs = extract_field_attr(html, "main section ul", "li > div > div > a > div > div", "div:first-child > div > div > div > div > img", "src");
    let n = names.len();
    let mut games: Vec<Game> = Vec::new();
    let mut i: usize = 0;
    while i < n
        invariant
            i <= n,
            n == epic_rows(html@),
            names@.len() == n,
            fulls@.len() == n,
            discs@.len() == n,
            pcts@.len() == n,
            imgs@.len() == n,
            names.deep_view() == field_texts(html@, epic_container(), epic_row(), "div:nth-child(2) > div:nth-child(2) > div > div"@),
            fulls.deep_view() == field_texts(html@, epic_container(), epic_row(), "div:nth-child(2) > div:nth-child(3) > div > div:nth-child(2) > div > div:first-child > span > div"@),
            discs.deep_view() == field_texts(html@, epic_container(), epic_row(), "div:nth-child(2) > div:nth-child(3) > div > div:nth-child(2) > div > div:nth-child(2) > span"@),
            pcts.deep_view() == field_texts(html@, epic_container(), epic_row(), "div:nth-child(2) > div:nth-child(3) > div > div:first-child > span > div"@),
            imgs.deep_view() == field_attrs(html@, epic_container(), epic_row(), "div:first-child > div > div > div > div > img"@, "src"@),
            games_view(games@) == epic_games_prefix(html@, i as int),
            forall|j: int| 0 <= j < games@.len() ==> wf_record(#[trigger] games@[j]@, Source::Epic),
        decreases n - i,
    {
        let name = get_element_text(&names[i]);
        let full = get_element_text(&fulls[i]);
        let disc = get_element_text(&discs[i]);
        let pct = get_element_text(&pcts[i]);
        let currency = get_currency(disc.as_str());
        let img = get_attr_text(&imgs[i]);
        let ghost pre = games@;
        let built = build_priced_game(Source::Epic, name, currency, full, disc, pct, img);
        proof {
            reveal_strlit("0%");
            assert(opt_game_view(built) == epic_game_at(html@, i as int));
        }
        if let Some(g) = built {
            games.push(g);
            proof {
                assert(games@ == pre.push(g));
                assert(games_view(games@) =~= games_view(pre).push(g@));
                assert(games_view(pre) + seq![g@] =~= games_view(pre).push(g@));
            }
        } else {
            proof {
                assert(epic_games_prefix(html@, i + 1) =~= epic_games_prefix(html@, i as int));
            }
        }
        i += 1;
    }
    let r = GamesVec { games };
    proof {
        assert(r@ =~= games_view(games@));
    }
    r
}

// --- Nuuvem ---

pub open spec fn nuuvem_container() -> Seq<char> {
    "div.products-items"@
}

pub open spec fn nuuvem_row() -> Seq<char> {
    "div.product-card--grid a.product-card--wrapper"@
}

/// How many result rows Nuuvem's page holds.
pub open spec fn nuuvem_rows(html: Seq<char>) -> nat {
    row_count(html, nuuvem_container(), nuuvem_row())
}

/// The cleaned text of one field of one Nuuvem result row.
pub open spec fn nuuvem_text(html: Seq<char>, field: Seq<char>, i: int) -> Seq<char> {
    clean_elements(field_texts(html, nuuvem_container(), nuuvem_row(), field)[i])
}

/// The record Nuuvem's row yields, or nothing where the combined price is
/// empty. The price concatenates the integer and decimal parts, which sit in
/// two separate nodes of the row.
pub open spec fn nuuvem_game_at(html: Seq<char>, i: int) -> Option<GameView> {
    nuuvem_game(
        nuuvem_text(html, "h3.product-title"@, i),
        currency_prefix(nuuvem_text(html, "sup.currency-symbol"@, i)),
        nuuvem_text(html, "span.integer"@, i) + nuuvem_text(html, "span.decimal"@, i),
        nuuvem_text(html, "span.product-price--discount"@, i),
        attr_or_empty(
            field_attrs(html, nuuvem_container(), nuuvem_row(), "div.product-img > img"@, "src"@)[i],
        ),
    )
}

/// The records of Nuuvem's first `n` rows, in document order.
pub open spec fn nuuvem_games_prefix(html: Seq<char>, n: int) -> Seq<GameView>
    decreases n,
{
    if n <= 0 {
        Seq::empty()
    } else {
        nuuvem_games_prefix(html, n - 1) + match nuuvem_game_at(html, n - 1) {
            Some(g) => seq![g],
            None => Seq::empty(),
        }
    }
}

/// Nuuvem's result set for a search page.
pub open spec fn nuuvem_games(html: Seq<char>) -> Seq<GameView> {
    nuuvem_games_prefix(html, nuuvem_rows(html) as int)
}

/// Nuuvem's adapter past its fetch: the result set extracted from the raw
/// search page. Absent or malformed markup yields an empty set, never an
/// error.
pub fn scrape_nuuvem(html: &str) -> (r: GamesVec)
    ensures
        r@ == nuuvem_games(html@),
        forall|i: int| 0 <= i < r@.len() ==> wf_record(#[trigger] r@[i], Source::Nuuvem),
{
    let names = extract_field_texts(html, "div.products-items", "div.product-card--grid a.product-card--wrapper", "h3.product-title");
    let ints = extract_field_texts(html, "div.products-items", "div.product-card--grid a.product-card--wrapper", "span.integer");
    let decs = extract_field_texts(html, "div.products-items", "div.product-card--grid a.product-card--wrapper", "span.decimal");
    let pcts = extract_field_texts(html, "div.products-items", "div.product-card--grid a.product-card--wrapper", "span.product-price--discount");
    let curs = extract_field_texts(html, "div.products-items", "div.product-card--grid a.product-card--wrapper", "sup.currency-symbol");
    let imgs = extract_field_attr(html, "div.products-items", "div.product-card--grid a.product-card--wrapper", "div.product-img > img", "src");
    let n = names.len();
    let mut games: Vec<Game> = Vec::new();
    let mut i: usize = 0;
    while i < n
        invariant
            i <= n,
            n == nuuvem_rows(html@),
            names@.len() == n,
            ints@.len() == n,
            decs@.len() == n,
            pcts@.len() == n,
            curs@.len() == n,
            imgs@.len() == n,
            names.deep_view() == field_texts(html@, nuuvem_container(), nuuvem_row(), "h3.product-title"@),
            ints.deep_view() == field_texts(html@, nuuvem_container(), nuuvem_row(), "span.integer"@),
            decs.deep_view() == field_texts(html@, nuuvem_container(), nuuvem_row(), "span.decimal"@),
            pcts.deep_view() == field_texts(html@, nuuvem_container(), nuuvem_row(), "span.product-price--discount"@),
            curs.deep_view() == field_texts(html@, nuuvem_container(), nuuvem_row(), "sup.currency-symbol"@),
            imgs.deep_view() == field_attrs(html@, nuuvem_container(), nuuvem_row(), "div.product-img > img"@, "src"@),
            games_view(games@) == nuuvem_games_prefix(html@, i as int),
            forall|j: int| 0 <= j < games@.len() ==> wf_record(#[trigger] games@[j]@, Source::Nuuvem),
        decreases n - i,
    {
        let name = get_element_text(&names[i]);
        let mut price = get_element_text(&ints[i]);
        let dec = get_element_text(&decs[i]);
        price.append(dec.as_str());
        let pct = get_element_text(&pcts[i]);
        let cur_text = get_element_text(&curs[i]);
        let currency = get_currency(cur_text.as_str());
        let img = get_attr_text(&imgs[i]);
        let ghost pre = games@;
        let built = build_nuuvem_game(name, currency, price, pct, img);
        proof {
            reveal_strlit("0%");
            reveal_strlit("R$0");
            assert(opt_game_view(built) == nuuvem_game_at(html@, i as int));
        }
        if let Some(g) = built {
            games.push(g);
            proof {
                assert(games@ == pre.push(g));
                assert(games_view(games@) =~= games_view(pre).push(g@));
                assert(games_view(pre) + seq![g@] =~= games_view(pre).push(g@));
            }
        } else {
            proof {
                assert(nuuvem_games_prefix(html@, i + 1) =~= nuuvem_games_prefix(html@, i as int));
            }
        }
        i += 1;
    }
    let r = GamesVec { games };
    proof {
        assert(r@ =~= games_view(games@));
    }
    r
}

/// A page on which a source's selector walk finds no rows — a query that
/// matched nothing, or markup the chain cannot read — yields an empty result
/// set for that source, never an error.
pub proof fn lemma_unmatched_page_is_empty(html: Seq<char>)
    ensures
        steam_rows(html) == 0 ==> steam_games(html) =~= Seq::<GameView>::empty(),
        epic_rows(html) == 0 ==> epic_games(html) =~= Seq::<GameView>::empty(),
        nuuvem_rows(html) == 0 ==> nuuvem_games(html) =~= Seq::<GameView>::empty(),
{
}

// --- configuration check ---

/// Whether every configured selector parses. The selectors are static
/// configuration: a failure here is a configuration error, to be surfaced at
/// startup rather than met during a request.
pub fn selectors_ok() -> (r: bool)
    ensures
        r <==> {
            &&& selector_is_valid("div[id='search_resultsRows']"@)
            &&& selector_is_valid("a.search_result_row"@)
            &&& selector_is_valid("span.title"@)
            &&& selector_is_valid("div.discount_original_price"@)
            &&& selector_is_valid("div.discount_final_price"@)
            &&& selector_is_valid("div.discount_pct"@)
            &&& selector_is_valid("div.search_capsule > img"@)
            &&& selector_is_valid("main section ul"@)
            &&& selector_is_valid("li > div > div > a > div > div"@)
            &&& selector_is_valid("div:nth-child(2) > div:nth-child(2) > div > div"@)
            &&& selector_is_valid("div:nth-child(2) > div:nth-child(3) > div > div:nth-child(2) > div > div:first-child > span > div"@)
            &&& selector_is_valid("div:nth-child(2) > div:nth-child(3) > div > div:nth-child(2) > div > div:nth-child(2) > span"@)
            &&& selector_is_valid("div:nth-child(2) > div:nth-child(3) > div > div:first-child > span > div"@)
            &&& selector_is_valid("div:first-child > div > div > div > div > img"@)
            &&& selector_is_valid("div.products-items"@)
            &&& selector_is_valid("div.product-card--grid a.product-card--wrapper"@)
            &&& selector_is_valid("h3.product-title"@)
            &&& selector_is_valid("sup.currency-symbol"@)
            &&& selector_is_valid("span.integer"@)
            &&& selector_is_valid("span.decimal"@)
            &&& selector_is_valid("span.product-price--discount"@)
            &&& selector_is_valid("div.product-img > img"@)
        },
{
    make_selector("div[id='search_resultsRows']").is_some()
        && make_selector("a.search_result_row").is_some()
        && make_selector("span.title").is_some()
        && make_selector("div.discount_original_price").is_some()
        && make_selector("div.discount_final_price").is_some()
        && make_selector("div.discount_pct").is_some()
        && make_selector("div.search_capsule > img").is_some()
        && make_selector("main section ul").is_some()
        && make_selector("li > div > div > a > div > div").is_some()
        && make_selector("div:nth-child(2) > div:nth-child(2) > div > div").is_some()
        && make_selector("div:nth-child(2) > div:nth-child(3) > div > div:nth-child(2) > div > div:first-child > span > div").is_some()
        && make_selector("div:nth-child(2) > div:nth-child(3) > div > div:nth-child(2) > div > div:nth-child(2) > span").is_some()
        && make_selector("div:nth-child(2) > div:nth-child(3) > div > div:first-child > span > div").is_some()
        && make_selector("div:first-child > div > div > div > div > img").is_some()
        && make_selector("div.products-items").is_some()
        && make_selector("div.product-card--grid a.product-card--wrapper").is_some()
        && make_selector("h3.product-title").is_some()
        && make_selector("sup.currency-symbol").is_some()
        && make_selector("span.integer").is_some()
        && make_selector("span.decimal").is_some()
        && make_selector("span.product-price--discount").is_some()
        && make_selector("div.product-img > img").is_some()
}

} // verus!
