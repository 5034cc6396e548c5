use game_deals::adapters::{
    epic_url, nuuvem_url, scrape_epic, scrape_nuuvem, scrape_steam, selectors_ok, steam_url,
};
use game_deals::dom::make_selector;
use game_deals::record::Source;

const STEAM_PAGE: &str = r#"<html><body><div id="search_resultsRows">
<a class="search_result_row">
<span class="title">Half-Life</span>
<div class="search_capsule"><img src="hl.jpg"></div>
<div class="discount_final_price">R$49,90</div>
</a>
<a class="search_result_row">
<span class="title">No Price Game</span>
</a>
<a class="search_result_row">
<span class="title">Portal</span>
<div class="discount_original_price">R$20,00</div>
<div class="discount_final_price">R$10,00</div>
<div class="discount_pct">-50%</div>
<div class="search_capsule"><img src="portal.jpg"></div>
</a>
</div></body></html>"#;

#[test]
fn steam_extracts_rows_in_document_order() {
    let r = scrape_steam(STEAM_PAGE);
    assert_eq!(r.games.len(), 2);
    assert_eq!(r.games[0].name, "Half-Life");
    assert_eq!(r.games[1].name, "Portal");
}

#[test]
fn steam_excludes_rows_with_no_price() {
    let r = scrape_steam(STEAM_PAGE);
    assert!(r.games.iter().all(|g| g.name != "No Price Game"));
    assert!(r.games.iter().all(|g| {
        !g.full_price.is_empty() || !g.discounted_price.is_empty()
    }));
}

#[test]
fn steam_normalizes_empty_discount() {
    let r = scrape_steam(STEAM_PAGE);
    assert_eq!(r.games[0].discount, "0%");
    assert_eq!(r.games[1].discount, "-50%");
}

#[test]
fn steam_reads_fields_verbatim() {
    let r = scrape_steam(STEAM_PAGE);
    let g = &r.games[1];
    assert_eq!(g.site, Source::Steam);
    assert_eq!(g.full_price, "R$20,00");
    assert_eq!(g.discounted_price, "R$10,00");
    assert_eq!(g.currency, "R$");
    assert_eq!(g.img_url, "portal.jpg");
    assert_eq!(r.games[0].full_price, "");
    assert_eq!(r.games[0].discounted_price, "R$49,90");
    assert_eq!(r.games[0].img_url, "hl.jpg");
}

#[test]
fn steam_on_unmatched_page_is_empty() {
    assert_eq!(scrape_steam("<html><body><p>nothing here</p></body></html>").games.len(), 0);
    assert_eq!(scrape_steam("not even html").games.len(), 0);
    assert_eq!(scrape_steam("").games.len(), 0);
}

const EPIC_PAGE: &str = r#"<html><body><main><section><ul>
<li><div><div><a href="g"><div><div>
<div><div><div><div><div><img src="epic.jpg"></div></div></div></div></div>
<div>
<div>x</div>
<div><div><div>Epic Game Title</div></div></div>
<div><div>
<div><span><div>-50%</div></span></div>
<div><div>
<div><span><div>R$100</div></span></div>
<div><span>R$50</span></div>
</div></div>
</div></div>
</div>
</div></div></a></div></div></li>
</ul></section></main></body></html>"#;

#[test]
fn epic_extracts_a_full_row() {
    let r = scrape_epic(EPIC_PAGE);
    assert_eq!(r.games.len(), 1);
    let g = &r.games[0];
    assert_eq!(g.site, Source::Epic);
    assert_eq!(g.name, "Epic Game Title");
    assert_eq!(g.full_price, "R$100");
    assert_eq!(g.discounted_price, "R$50");
    assert_eq!(g.discount, "-50%");
    assert_eq!(g.currency, "R$");
    assert_eq!(g.img_url, "epic.jpg");
}

const EPIC_PAGE_NO_DISCOUNT: &str = r#"<html><body><main><section><ul>
<li><div><div><a href="g"><div><div>
<div><div><div><div><div><img src="epic.jpg"></div></div></div></div></div>
<div>
<div>x</div>
<div><div><div>Undiscounted</div></div></div>
<div><div>
<div></div>
<div><div>
<div><span><div>R$100</div></span></div>
<div><span></span></div>
</div></div>
</div></div>
</div>
</div></div></a></div></div></li>
</ul></section></main></body></html>"#;

#[test]
fn epic_normalizes_empty_discount() {
    let r = scrape_epic(EPIC_PAGE_NO_DISCOUNT);
    assert_eq!(r.games.len(), 1);
    let g = &r.games[0];
    assert_eq!(g.name, "Undiscounted");
    assert_eq!(g.full_price, "R$100");
    assert_eq!(g.discounted_price, "");
    assert_eq!(g.discount, "0%");
}

#[test]
fn epic_on_unmatched_page_is_empty() {
    assert_eq!(scrape_epic("<html><body><p>nothing here</p></body></html>").games.len(), 0);
    assert_eq!(scrape_epic("").games.len(), 0);
}

const NUUVEM_PAGE: &str = r#"<html><body><div class="products-items">
<div class="product-card--grid"><a class="product-card--wrapper" href="x">
<h3 class="product-title">Half-Life</h3>
<div class="product-img"><img src="hl.jpg"></div>
<span class="product-price--discount">-75%</span>
<sup class="currency-symbol">R$</sup>
<span class="integer">12</span><span class="decimal">,49</span>
</a></div>
<div class="product-card--grid"><a class="product-card--wrapper" href="y">
<h3 class="product-title">Portal</h3>
<sup class="currency-symbol">R$</sup>
<span class="integer">20</span><span class="decimal">,00</span>
</a></div>
<div class="product-card--grid"><a class="product-card--wrapper" href="z">
<h3 class="product-title">Unpriced</h3>
</a></div>
</div></body></html>"#;

#[test]
fn nuuvem_concatenates_integer_and_decimal_price_parts() {
    let r = scrape_nuuvem(NUUVEM_PAGE);
    assert_eq!(r.games.len(), 2);
    let g = &r.games[0];
    assert_eq!(g.site, Source::Nuuvem);
    assert_eq!(g.name, "Half-Life");
    assert_eq!(g.full_price, "12,49");
    assert_eq!(g.discounted_price, "12,49");
    assert_eq!(g.discount, "-75%");
    assert_eq!(g.currency, "R$");
    assert_eq!(g.img_url, "hl.jpg");
}

#[test]
fn nuuvem_without_discount_forces_sentinel_price() {
    let r = scrape_nuuvem(NUUVEM_PAGE);
    let g = &r.games[1];
    assert_eq!(g.name, "Portal");
    assert_eq!(g.full_price, "R$0");
    assert_eq!(g.discounted_price, "R$0");
    assert_eq!(g.discount, "0%");
    assert_eq!(g.currency, "R$");
}

#[test]
fn nuuvem_excludes_rows_with_no_price() {
    let r = scrape_nuuvem(NUUVEM_PAGE);
    assert!(r.games.iter().all(|g| g.name != "Unpriced"));
}

#[test]
fn nuuvem_on_unmatched_page_is_empty() {
    assert_eq!(scrape_nuuvem("<html><body></body></html>").games.len(), 0);
    assert_eq!(scrape_nuuvem("").games.len(), 0);
}

#[test]
fn configured_selectors_all_parse() {
    assert!(selectors_ok());
}

#[test]
fn invalid_selector_is_refused() {
    assert!(make_selector("div[").is_none());
    assert!(make_selector("span.title").is_some());
}

#[test]
fn query_urls_are_percent_encoded() {
    assert_eq!(
        steam_url("Half-Life 2"),
        "https://store.steampowered.com/search/?term=Half-Life+2"
    );
    assert_eq!(
        epic_url("a b"),
        "https://store.epicgames.com/pt-BR/browse?q=a+b&sortBy=relevancy&sortDir=DESC&count=40"
    );
    assert_eq!(
        nuuvem_url("100% Orange Juice"),
        "https://www.nuuvem.com/br-pt/catalog/page/1/search/100%25+Orange+Juice"
    );
    assert_eq!(
        steam_url("\u{e9}"),
        "https://store.steampowered.com/search/?term=%C3%A9"
    );
}
