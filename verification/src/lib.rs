//! Extraction of page metadata — title, description, favicon and
//! Open Graph image — from the HTML that a target URL serves, with a
//! fixed placeholder substituted for every field the page does not
//! provide, and the result serialized as a four-field JSON object.

pub mod handler;
pub mod html_query;
pub mod json;
pub mod website_fetcher;
