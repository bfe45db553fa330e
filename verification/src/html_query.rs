//! The four structural queries against a page's HTML, answered by the
//! scraper crate. Parsing is lenient: malformed markup is parsed as far
//! as possible and anything missing counts as absence, never as an
//! error. Each query is deterministic — lenient parsing and selector
//! matching are functions of the document text alone — so its result is
//! named by an uninterpreted spec function.

use vstd::prelude::*;

verus! {

/// The concatenated text of the first `title` element of the document,
/// in document order; `None` when the document has no `title` element.
pub uninterp spec fn title_query(body: Seq<char>) -> Option<Seq<char>>;

/// The `content` attribute of the first `meta` element whose `name`
/// attribute is `description`; `None` when no such element exists or it
/// lacks the attribute.
pub uninterp spec fn description_query(body: Seq<char>) -> Option<Seq<char>>;

/// The `href` attribute of the first `link` element whose `rel`
/// attribute is `icon`; `None` when no such element exists or it lacks
/// the attribute.
pub uninterp spec fn favicon_query(body: Seq<char>) -> Option<Seq<char>>;

/// The `content` attribute of the first `meta` element whose `property`
/// attribute is `og:image`; `None` when no such element exists or it
/// lacks the attribute.
pub uninterp spec fn og_image_query(body: Seq<char>) -> Option<Seq<char>>;

/// The optional text that an `Option<String>` holds.
pub open spec fn view_opt(o: Option<String>) -> Option<Seq<char>> {
    match o {
        Option::Some(s) => Option::Some(s@),
        Option::None => Option::None,
    }
}

/// Relies on scraper's `Html::parse_document`, `Html::select` and
/// `ElementRef::text`: the concatenated text of the first `title`
/// element, elements taken in document order. The fixed selector
/// literal is valid, so `Selector::parse` cannot fail.
#[verifier::external_body]
pub(crate) fn query_title(body: &str) -> (r: Option<String>)
    ensures
        view_opt(r) == title_query(body@),
{
    let document = scraper::Html::parse_document(body);
    let selector = scraper::Selector::parse("title").unwrap();
    document.select(&selector).next().map(|element| element.text().collect::<String>())
}

/// Relies on scraper's `Html::parse_document`, `Html::select` and
/// `ElementRef::attr`: the `content` attribute of the first element
/// matching `meta[name='description']`. The fixed selector literal is
/// valid, so `Selector::parse` cannot fail.
#[verifier::external_body]
pub(crate) fn query_description(body: &str) -> (r: Option<String>)
    ensures
        view_opt(r) == description_query(body@),
{
    let document = scraper::Html::parse_document(body);
    let selector = scraper::Selector::parse("meta[name='description']").unwrap();
    document.select(&selector).next().and_then(|element| element.attr("content")).map(String::from)
}

/// Relies on scraper's `Html::parse_document`, `Html::select` and
/// `ElementRef::attr`: the `href` attribute of the first element
/// matching `link[rel='icon']`. The fixed selector literal is valid,
/// so `Selector::parse` cannot fail.
#[verifier::external_body]
pub(crate) fn query_favicon(body: &str) -> (r: Option<String>)
    ensures
        view_opt(r) == favicon_query(body@),
{
    let document = scraper::Html::parse_document(body);
    let selector = scraper::Selector::parse("link[rel='icon']").unwrap();
    document.select(&selector).next().and_then(|element| element.attr("href")).map(String::from)
}

/// Relies on scraper's `Html::parse_document`, `Html::select` and
/// `ElementRef::attr`: the `content` attribute of the first element
/// matching `meta[property='og:image']`. The fixed selector literal is
/// valid, so `Selector::parse` cannot fail.
#[verifier::external_body]
pub(crate) fn query_og_image(body: &str) -> (r: Option<String>)
    ensures
        view_opt(r) == og_image_query(body@),
{
    let document = scraper::Html::parse_document(body);
    let selector = scraper::Selector::parse("meta[property='og:image']").unwrap();
    document.select(&selector).next().and_then(|element| element.attr("content")).map(String::from)
}

} // verus!
