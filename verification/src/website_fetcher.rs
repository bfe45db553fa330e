//! The extraction pipeline's value and its assembly: the four metadata
//! fields of a page, each replaced by its fixed placeholder when the
//! page does not provide it.

use vstd::prelude::*;

use crate::html_query::{
    description_query, favicon_query, og_image_query, query_description, query_favicon,
    query_og_image, query_title, title_query, view_opt,
};

verus! {

/// Placeholder served when the document has no `title` element.
pub const TITLE_NOT_FOUND: &'static str = "Title not found";

/// Placeholder served when the document has no usable description.
pub const DESCRIPTION_NOT_FOUND: &'static str = "Description not found";

/// Placeholder served when the document has no usable favicon link.
pub const FAVICON_NOT_FOUND: &'static str = "Favicon not found";

/// Placeholder served when the document has no usable Open Graph image.
pub const OG_IMAGE_NOT_FOUND: &'static str = "og:image not found";

/// The four metadata fields served for a page. Every field is always
/// present; a missing element only puts the field's placeholder here.
#[derive(Debug, Clone, PartialEq, Eq)]
pub struct WebsiteData {
    pub title: String,
    pub description: String,
    pub favicon: String,
    pub og_image: String,
}

/// What a `WebsiteData` value holds, field by field.
pub struct WebsiteDataView {
    pub title: Seq<char>,
    pub description: Seq<char>,
    pub favicon: Seq<char>,
    pub og_image: Seq<char>,
}

impl View for WebsiteData {
    type V = WebsiteDataView;

    open spec fn view(&self) -> WebsiteDataView {
        WebsiteDataView {
            title: self.title@,
            description: self.description@,
            favicon: self.favicon@,
            og_image: self.og_image@,
        }
    }
}

/// One extracted field: the query's text where it found one, the
/// field's placeholder otherwise.
pub open spec fn field_or(q: Option<Seq<char>>, placeholder: Seq<char>) -> Seq<char> {
    match q {
        Option::Some(s) => s,
        Option::None => placeholder,
    }
}

/// What extraction yields on a document: the four structural queries,
/// each defaulted to its placeholder where it found nothing.
pub open spec fn extract_spec(body: Seq<char>) -> WebsiteDataView {
    WebsiteDataView {
        title: field_or(title_query(body), TITLE_NOT_FOUND@),
        description: field_or(description_query(body), DESCRIPTION_NOT_FOUND@),
        favicon: field_or(favicon_query(body), FAVICON_NOT_FOUND@),
        og_image: field_or(og_image_query(body), OG_IMAGE_NOT_FOUND@),
    }
}

/// The query's text where it found one, the given placeholder otherwise.
pub fn value_or_default(q: Option<String>, placeholder: &str) -> (r: String)
    ensures
        r@ == field_or(view_opt(q), placeholder@),
{
    match q {
        Option::Some(s) => s,
        Option::None => placeholder.to_owned(),
    }
}

/// Assembles the served value from the four query results, substituting
/// each field's placeholder exactly where its query found nothing.
pub fn build_website_data(
    title: Option<String>,
    description: Option<String>,
    favicon: Option<String>,
    og_image: Option<String>,
) -> (r: WebsiteData)
    ensures
        r@ == (WebsiteDataView {
            title: field_or(view_opt(title), TITLE_NOT_FOUND@),
            description: field_or(view_opt(description), DESCRIPTION_NOT_FOUND@),
            favicon: field_or(view_opt(favicon), FAVICON_NOT_FOUND@),
            og_image: field_or(view_opt(og_image), OG_IMAGE_NOT_FOUND@),
        }),
{
    WebsiteData {
        title: value_or_default(title, TITLE_NOT_FOUND),
        description: value_or_default(description, DESCRIPTION_NOT_FOUND),
        favicon: value_or_default(favicon, FAVICON_NOT_FOUND),
        og_image: value_or_default(og_image, OG_IMAGE_NOT_FOUND),
    }
}

/// Parses `body` as HTML, leniently, and extracts the four metadata
/// fields, each defaulted where the document does not provide it.
pub fn extract_website_data(body: &str) -> (r: WebsiteData)
    ensures
        r@ == extract_spec(body@),
{
    let title = query_title(body);
    let description = query_description(body);
    let favicon = query_favicon(body);
    let og_image = query_og_image(body);
    build_website_data(title, description, favicon, og_image)
}

/// A document that provides none of the four target elements is served
/// exactly the four placeholder texts.
pub proof fn lemma_defaults_when_absent(body: Seq<char>)
    requires
        title_query(body) is None,
        description_query(body) is None,
        favicon_query(body) is None,
        og_image_query(body) is None,
    ensures
        extract_spec(body) == (WebsiteDataView {
            title: TITLE_NOT_FOUND@,
            description: DESCRIPTION_NOT_FOUND@,
            favicon: FAVICON_NOT_FOUND@,
            og_image: OG_IMAGE_NOT_FOUND@,
        }),
{
}

} // verus!
