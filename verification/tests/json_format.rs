use site_meta::website_fetcher::WebsiteData;

fn data(title: &str, description: &str, favicon: &str, og_image: &str) -> WebsiteData {
    WebsiteData {
        title: title.to_string(),
        description: description.to_string(),
        favicon: favicon.to_string(),
        og_image: og_image.to_string(),
    }
}

#[test]
fn four_fields_in_fixed_order() {
    let d = data("t", "d", "f", "o");
    assert_eq!(
        d.to_json(),
        "{\"title\":\"t\",\"description\":\"d\",\"favicon\":\"f\",\"og_image\":\"o\"}"
    );
}

#[test]
fn quotes_and_backslashes_are_escaped() {
    let d = data("Say \"hi\"", "a\\b", "f", "o");
    assert_eq!(
        d.to_json(),
        "{\"title\":\"Say \\\"hi\\\"\",\"description\":\"a\\\\b\",\"favicon\":\"f\",\"og_image\":\"o\"}"
    );
}

#[test]
fn named_control_characters_take_short_escapes() {
    let d = data("a\nb", "c\td", "e\rf", "g\u{8}h\u{c}i");
    assert_eq!(
        d.to_json(),
        "{\"title\":\"a\\nb\",\"description\":\"c\\td\",\"favicon\":\"e\\rf\",\"og_image\":\"g\\bh\\fi\"}"
    );
}

#[test]
fn other_control_characters_take_hex_escapes() {
    let d = data("x\u{1}y", "z\u{1f}w", "f", "o");
    assert_eq!(
        d.to_json(),
        "{\"title\":\"x\\u0001y\",\"description\":\"z\\u001fw\",\"favicon\":\"f\",\"og_image\":\"o\"}"
    );
}

#[test]
fn non_ascii_text_passes_through() {
    let d = data("café", "naïve", "f", "o");
    assert_eq!(
        d.to_json(),
        "{\"title\":\"café\",\"description\":\"naïve\",\"favicon\":\"f\",\"og_image\":\"o\"}"
    );
}

#[test]
fn empty_fields_serialize_as_empty_strings() {
    let d = data("", "", "", "");
    assert_eq!(
        d.to_json(),
        "{\"title\":\"\",\"description\":\"\",\"favicon\":\"\",\"og_image\":\"\"}"
    );
}
