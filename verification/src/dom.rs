//! The extractor's trusted boundary: the selector walk over a parsed search
//! page. A fixed chain of selectors (results container, result row, field
//! within the row) narrows the document down to the raw text or attribute of
//! each field, one entry per result row; everything downstream of these raw
//! values is verified.

use vstd::prelude::*;

verus! {

#[verifier::external_type_specification]
#[verifier::external_body]
pub struct ExSelector(scraper::Selector);

/// Whether `scraper` accepts a piece of text as a valid selector list; the
/// outcome depends on the text alone.
pub uninterp spec fn selector_is_valid(s: Seq<char>) -> bool;

/// How many result rows the walk down `container` then `row` finds in a
/// page, over every matched container and in document order. The count
/// depends only on the page and on those two selectors, never on which field
/// is read afterwards.
pub uninterp spec fn row_count(html: Seq<char>, container: Seq<char>, row: Seq<char>) -> nat;

/// For each result row of the walk, for each element matched by `field`
/// within that row, the element's raw text fragments in document order.
pub uninterp spec fn field_texts(
    html: Seq<char>,
    container: Seq<char>,
    row: Seq<char>,
    field: Seq<char>,
) -> Seq<Seq<Seq<Seq<char>>>>;

/// For each result row of the walk, the value of the attribute named `attr`
/// on the first element matched by `field` within that row, where both
/// exist.
pub uninterp spec fn field_attrs(
    html: Seq<char>,
    container: Seq<char>,
    row: Seq<char>,
    field: Seq<char>,
    attr: Seq<char>,
) -> Seq<Option<Seq<char>>>;

/// Relies on `scraper::Selector::parse`: it returns `Ok` exactly when the
/// text is a valid selector list. Selectors here are static configuration,
/// so a failure is a configuration error to surface at startup, never a
/// per-request condition.
#[verifier::external_body]
pub fn make_selector(selector: &str) -> (r: Option<scraper::Selector>)
    ensures
        r is Some <==> selector_is_valid(selector@),
{
    scraper::Selector::parse(selector).ok()
}

/// Relies on `scraper::Html::parse_document` and the `select` iterators:
/// parsing is deterministic, the walk yields the rows of every matched
/// container in document order, and each row contributes exactly one entry,
/// holding the text fragments of each element the field selector matches
/// within it. An invalid selector matches nothing.
#[verifier::external_body]
pub(crate) fn extract_field_texts(
    html: &str,
    container: &str,
    row: &str,
    field: &str,
) -> (r: Vec<Vec<Vec<String>>>)
    ensures
        r.deep_view() == field_texts(html@, container@, row@, field@),
        r@.len() == row_count(html@, container@, row@),
{
    let doc = scraper::Html::parse_document(html);
    let (Ok(csel), Ok(rsel)) = (scraper::Selector::parse(container), scraper::Selector::parse(row))
    else {
        return Vec::new();
    };
    let fsel = scraper::Selector::parse(field).ok();
    doc.select(&csel).flat_map(|c| c.select(&rsel)).map(|rw| match &fsel {
        Some(f) => rw.select(f).map(|el| el.text().map(str::to_string).collect()).collect(),
        None => Vec::new(),
    }).collect()
}

/// Relies on the same walk as [`extract_field_texts`], reading one attribute
/// instead: for each row, the attribute's value on the first element the
/// field selector matches, where both exist.
#[verifier::external_body]
pub(crate) fn extract_field_attr(
    html: &str,
    container: &str,
    row: &str,
    field: &str,
    attr: &str,
) -> (r: Vec<Option<String>>)
    ensures
        r.deep_view() == field_attrs(html@, container@, row@, field@, attr@),
        r@.len() == row_count(html@, container@, row@),
{
    let doc = scraper::Html::parse_document(html);
    let (Ok(csel), Ok(rsel)) = (scraper::Selector::parse(container), scraper::Selector::parse(row))
    else {
        return Vec::new();
    };
    let fsel = scraper::Selector::parse(field).ok();
    doc.select(&csel).flat_map(|c| c.select(&rsel)).map(|rw| {
        fsel.as_ref().and_then(|f| rw.select(f).next()).and_then(
            |el| el.value().attr(attr).map(str::to_string),
        )
    }).collect()
}

} // verus!
