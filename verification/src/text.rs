//! Field normalization: cleaning the text that the extractor pulls out of a
//! result row, and reading a currency prefix off a displayed price.

use vstd::prelude::*;
use vstd::string::StrSliceExecFns;
use vstd::string::StringExecFns;

verus! {

/// What `char::is_numeric` returns; the result depends on the character alone.
pub uninterp spec fn is_numeric_char(c: char) -> bool;

/// What `char::is_whitespace` returns; the result depends on the character alone.
pub uninterp spec fn is_space_char(c: char) -> bool;

/// What `str::to_lowercase` returns; the result depends on the characters alone.
pub uninterp spec fn lower_of(s: Seq<char>) -> Seq<char>;

/// Relies on `char::is_numeric`: true exactly for Unicode numeric characters.
#[verifier::external_body]
fn char_is_numeric(c: char) -> (r: bool)
    ensures
        r == is_numeric_char(c),
{
    c.is_numeric()
}

/// Relies on `char::is_whitespace`: true exactly for Unicode whitespace.
#[verifier::external_body]
fn char_is_space(c: char) -> (r: bool)
    ensures
        r == is_space_char(c),
{
    c.is_whitespace()
}

/// Relies on `str::to_lowercase`: the result depends on the characters alone,
/// and an empty string stays empty.
#[verifier::external_body]
pub(crate) fn lowercase(s: &str) -> (r: String)
    ensures
        r@ == lower_of(s@),
        s@.len() == 0 ==> r@.len() == 0,
{
    s.to_lowercase()
}

/// Relies on `String::push`, which vstd leaves unspecified: appends one character.
#[verifier::external_body]
fn string_push(s: &mut String, c: char)
    ensures
        final(s)@ == old(s)@.push(c),
{
    s.push(c);
}

/// The fragments of one element's text, joined by single spaces.
pub open spec fn join_spaces(frags: Seq<Seq<char>>) -> Seq<char>
    decreases frags.len(),
{
    if frags.len() == 0 {
        Seq::empty()
    } else if frags.len() == 1 {
        frags[0]
    } else {
        join_spaces(frags.drop_last()) + seq![' '] + frags.last()
    }
}

/// A string with its leading whitespace removed.
pub open spec fn trim_start_spec(s: Seq<char>) -> Seq<char>
    decreases s.len(),
{
    if s.len() > 0 && is_space_char(s[0]) {
        trim_start_spec(s.drop_first())
    } else {
        s
    }
}

/// A string with its trailing whitespace removed.
pub open spec fn trim_end_spec(s: Seq<char>) -> Seq<char>
    decreases s.len(),
{
    if s.len() > 0 && is_space_char(s.last()) {
        trim_end_spec(s.drop_last())
    } else {
        s
    }
}

/// A string with whitespace removed from both ends.
pub open spec fn trim_spec(s: Seq<char>) -> Seq<char> {
    trim_end_spec(trim_start_spec(s))
}

/// Every embedded newline collapsed to a single space.
pub open spec fn newlines_to_spaces(s: Seq<char>) -> Seq<char> {
    s.map_values(|c: char| if c == '\n' { ' ' } else { c })
}

/// One matched element's displayable text: its text fragments joined by
/// spaces, trimmed, and with newlines collapsed.
pub open spec fn clean_fragment_text(frags: Seq<Seq<char>>) -> Seq<char> {
    newlines_to_spaces(trim_spec(join_spaces(frags)))
}

/// The text of a whole field: each matched element's cleaned text,
/// concatenated with no separator.
pub open spec fn clean_elements(els: Seq<Seq<Seq<char>>>) -> Seq<char>
    decreases els.len(),
{
    if els.len() == 0 {
        Seq::empty()
    } else {
        clean_elements(els.drop_last()) + clean_fragment_text(els.last())
    }
}

/// The leading non-numeric prefix of a displayed price: everything before
/// the first numeric character.
pub open spec fn currency_prefix(s: Seq<char>) -> Seq<char>
    decreases s.len(),
{
    if s.len() == 0 || is_numeric_char(s[0]) {
        Seq::empty()
    } else {
        seq![s[0]] + currency_prefix(s.drop_first())
    }
}

/// An attribute value where the element or the attribute may be absent.
pub open spec fn attr_or_empty(o: Option<Seq<char>>) -> Seq<char> {
    match o {
        Some(s) => s,
        None => Seq::empty(),
    }
}

fn join_with_spaces(frags: &Vec<String>) -> (r: String)
    ensures
        r@ == join_spaces(frags.deep_view()),
{
    let mut out = String::new();
    let mut i: usize = 0;
    while i < frags.len()
        invariant
            i <= frags@.len(),
            frags.deep_view().len() == frags@.len(),
            out@ == join_spaces(frags.deep_view().take(i as int)),
        decreases frags@.len() - i,
    {
        proof {
            reveal_strlit(" ");
            let dv = frags.deep_view();
            assert(dv.take(i + 1).drop_last() =~= dv.take(i as int));
            assert(dv.take(i + 1).last() == dv[i as int]);
            assert(" "@ =~= seq![' ']);
        }
        if i > 0 {
            out.append(" ");
        }
        out.append(frags[i].as_str());
        proof {
            let dv = frags.deep_view();
            if i == 0 {
                assert(join_spaces(dv.take(1)) == dv.take(1)[0]);
                assert(dv.take(1)[0] == dv[0]);
                assert(out@ == dv[0]);
            }
        }
        i += 1;
    }
    proof {
        assert(frags.deep_view().take(frags@.len() as int) =~= frags.deep_view());
    }
    out
}

fn trim_str(s: &str) -> (r: String)
    ensures
        r@ == trim_spec(s@),
{
    let len = s.unicode_len();
    proof {
        assert(s@.skip(0) =~= s@);
    }
    let mut start: usize = 0;
    while start < len && char_is_space(s.get_char(start))
        invariant
            start <= len,
            len == s@.len(),
            trim_start_spec(s@) == trim_start_spec(s@.skip(start as int)),
        decreases len - start,
    {
        proof {
            assert(s@.skip(start as int)[0] == s@[start as int]);
            assert(s@.skip(start as int).drop_first() =~= s@.skip(start + 1));
        }
        start += 1;
    }
    proof {
        if start < len {
            assert(s@.skip(start as int)[0] == s@[start as int]);
        }
        assert(trim_start_spec(s@) == s@.skip(start as int));
        assert(s@.skip(start as int) =~= s@.subrange(start as int, len as int));
    }
    let mut end: usize = len;
    while end > start && char_is_space(s.get_char(end - 1))
        invariant
            start <= end <= len,
            len == s@.len(),
            trim_end_spec(s@.subrange(start as int, len as int)) == trim_end_spec(
                s@.subrange(start as int, end as int),
            ),
        decreases end,
    {
        proof {
            let t = s@.subrange(start as int, end as int);
            assert(t.last() == s@[end - 1]);
            assert(t.drop_last() =~= s@.subrange(start as int, end - 1));
        }
        end -= 1;
    }
    proof {
        let t = s@.subrange(start as int, end as int);
        if end > start {
            assert(t.last() == s@[end - 1]);
        }
        assert(trim_end_spec(t) == t);
    }
    String::from_str(s.substring_char(start, end))
}

fn newline_to_space_str(s: &str) -> (r: String)
    ensures
        r@ == newlines_to_spaces(s@),
{
    let len = s.unicode_len();
    let mut out = String::new();
    let mut i: usize = 0;
    while i < len
        invariant
            i <= len,
            len == s@.len(),
            out@ == newlines_to_spaces(s@.take(i as int)),
        decreases len - i,
    {
        let c = s.get_char(i);
        let m = if c == '\n' {
            ' '
        } else {
            c
        };
        string_push(&mut out, m);
        proof {
            assert(newlines_to_spaces(s@.take(i + 1)) =~= newlines_to_spaces(
                s@.take(i as int),
            ).push(m));
        }
        i += 1;
    }
    proof {
        assert(s@.take(len as int) =~= s@);
    }
    out
}

/// The displayable text of one extracted field: each matched element's
/// fragments joined with single spaces, trimmed, newlines collapsed, and the
/// per-element results concatenated with no separator.
pub fn get_element_text(elements: &Vec<Vec<String>>) -> (r: String)
    ensures
        r@ == clean_elements(elements.deep_view()),
{
    let mut out = String::new();
    let mut e: usize = 0;
    while e < elements.len()
        invariant
            e <= elements@.len(),
            elements.deep_view().len() == elements@.len(),
            out@ == clean_elements(elements.deep_view().take(e as int)),
        decreases elements@.len() - e,
    {
        let joined = join_with_spaces(&elements[e]);
        let trimmed = trim_str(joined.as_str());
        let cleaned = newline_to_space_str(trimmed.as_str());
        out.append(cleaned.as_str());
        proof {
            let dv = elements.deep_view();
            assert(dv.take(e + 1).drop_last() =~= dv.take(e as int));
            assert(dv.take(e + 1).last() == dv[e as int]);
            assert(cleaned@ == clean_fragment_text(dv[e as int]));
        }
        e += 1;
    }
    proof {
        assert(elements.deep_view().take(elements@.len() as int) =~= elements.deep_view());
    }
    out
}

/// The leading currency marker of a displayed price: the text before the
/// first numeric character, so `"R$49,90"` yields `"R$"`; an empty text
/// yields an empty marker.
pub fn get_currency(monetary_text: &str) -> (r: String)
    ensures
        r@ == currency_prefix(monetary_text@),
{
    let len = monetary_text.unicode_len();
    proof {
        assert(monetary_text@.skip(0) =~= monetary_text@);
        assert(monetary_text@.take(0) =~= Seq::<char>::empty());
    }
    let mut out = String::new();
    let mut i: usize = 0;
    while i < len && !char_is_numeric(monetary_text.get_char(i))
        invariant
            i <= len,
            len == monetary_text@.len(),
            out@ == monetary_text@.take(i as int),
            currency_prefix(monetary_text@) == out@ + currency_prefix(
                monetary_text@.skip(i as int),
            ),
        decreases len - i,
    {
        let c = monetary_text.get_char(i);
        string_push(&mut out, c);
        proof {
            let rest = monetary_text@.skip(i as int);
            assert(rest[0] == monetary_text@[i as int]);
            assert(rest.drop_first() =~= monetary_text@.skip(i + 1));
            assert(currency_prefix(rest) == seq![c] + currency_prefix(
                monetary_text@.skip(i + 1),
            ));
            assert(out@ =~= monetary_text@.take(i + 1));
            assert(monetary_text@.take(i as int) + seq![c] =~= monetary_text@.take(i + 1));
        }
        i += 1;
    }
    proof {
        let rest = monetary_text@.skip(i as int);
        if i < len {
            assert(rest[0] == monetary_text@[i as int]);
        }
        assert(currency_prefix(rest) =~= Seq::<char>::empty());
    }
    out
}

/// The display form of an optional attribute: the value where one was
/// matched, the empty string otherwise.
pub fn get_attr_text(attr: &Option<String>) -> (r: String)
    ensures
        r@ == attr_or_empty(attr.deep_view()),
{
    match attr {
        Some(s) => s.clone(),
        None => String::new(),
    }
}

} // verus!
