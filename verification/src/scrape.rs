//! The trusted boundary to the outside crates that the adapter leans on:
//! CSS-selector extraction out of fetched markup (scraper), percent-encoding
//! (urlencoding), and URL resolution (url). Each extraction result is a pure
//! function of the input strings, so it is given a name here and everything
//! that reads it is verified against that name.

use vstd::prelude::*;

verus! {

/// What scraper yields for a document and selector: the serialized HTML of
/// every matching element, in document order.
pub uninterp spec fn fragments_of(doc: Seq<char>, sel: Seq<char>) -> Seq<Seq<char>>;

/// The concatenated text of the first element matching the selector.
pub uninterp spec fn first_text_of(doc: Seq<char>, sel: Seq<char>) -> Option<Seq<char>>;

/// The named attribute of the first element matching the selector.
pub uninterp spec fn first_attr_of(doc: Seq<char>, sel: Seq<char>, name: Seq<char>) -> Option<
    Seq<char>,
>;

/// The inner HTML of the first element matching the selector.
pub uninterp spec fn first_inner_html_of(doc: Seq<char>, sel: Seq<char>) -> Option<Seq<char>>;

/// What urlencoding yields for a string: its percent-encoded form.
pub uninterp spec fn encoded(s: Seq<char>) -> Seq<char>;

/// What url yields for a base and a relative reference: the resolved URL,
/// or nothing where the base does not parse or the reference cannot be
/// resolved against it.
pub uninterp spec fn joined(base: Seq<char>, rel: Seq<char>) -> Option<Seq<char>>;

/// Relies on scraper's Selector::parse, Html::parse_document, select and
/// ElementRef::html: the matching elements' serialized HTML, in document
/// order (empty for an unparsable selector).
#[verifier::external_body]
pub(crate) fn select_fragments(doc: &str, sel: &str) -> (r: Vec<String>)
    ensures
        r.deep_view() == fragments_of(doc@, sel@),
{
    let s = match scraper::Selector::parse(sel) {
        Ok(s) => s,
        Err(_) => return Vec::new(),
    };
    let h = scraper::Html::parse_document(doc);
    h.select(&s).map(|e| e.html()).collect()
}

/// Relies on scraper's select and ElementRef::text: the first matching
/// element's text, concatenated.
#[verifier::external_body]
pub(crate) fn select_first_text(doc: &str, sel: &str) -> (r: Option<String>)
    ensures
        r is Some <==> first_text_of(doc@, sel@) is Some,
        r is Some ==> r->0@ == first_text_of(doc@, sel@)->0,
{
    let s = match scraper::Selector::parse(sel) {
        Ok(s) => s,
        Err(_) => return None,
    };
    let h = scraper::Html::parse_document(doc);
    h.select(&s).next().map(|e| e.text().collect())
}

/// Relies on scraper's select and ElementRef::attr: the named attribute of
/// the first matching element, where both exist.
#[verifier::external_body]
pub(crate) fn select_first_attr(doc: &str, sel: &str, name: &str) -> (r: Option<String>)
    ensures
        r is Some <==> first_attr_of(doc@, sel@, name@) is Some,
        r is Some ==> r->0@ == first_attr_of(doc@, sel@, name@)->0,
{
    let s = match scraper::Selector::parse(sel) {
        Ok(s) => s,
        Err(_) => return None,
    };
    let h = scraper::Html::parse_document(doc);
    h.select(&s).next().and_then(|e| e.attr(name)).map(|v| v.to_owned())
}

/// Relies on scraper's select and ElementRef::inner_html: the inner HTML of
/// the first matching element.
#[verifier::external_body]
pub(crate) fn select_first_inner_html(doc: &str, sel: &str) -> (r: Option<String>)
    ensures
        r is Some <==> first_inner_html_of(doc@, sel@) is Some,
        r is Some ==> r->0@ == first_inner_html_of(doc@, sel@)->0,
{
    let s = match scraper::Selector::parse(sel) {
        Ok(s) => s,
        Err(_) => return None,
    };
    let h = scraper::Html::parse_document(doc);
    h.select(&s).next().map(|e| e.inner_html())
}

/// Relies on urlencoding's encode: the percent-encoded form of the input,
/// a function of the characters alone.
#[verifier::external_body]
pub(crate) fn url_encode(s: &str) -> (r: String)
    ensures
        r@ == encoded(s@),
{
    urlencoding::encode(s).into_owned()
}

/// Relies on url's Url::parse, Url::join and Url::as_str: the reference
/// resolved against the base, serialized; nothing where parsing fails.
#[verifier::external_body]
pub(crate) fn join_url(base: &str, rel: &str) -> (r: Option<String>)
    ensures
        r is Some <==> joined(base@, rel@) is Some,
        r is Some ==> r->0@ == joined(base@, rel@)->0,
{
    let b = match url::Url::parse(base) {
        Ok(b) => b,
        Err(_) => return None,
    };
    match b.join(rel) {
        Ok(u) => Some(u.as_str().to_owned()),
        Err(_) => None,
    }
}

} // verus!
