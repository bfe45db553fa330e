use site_meta::handler::{validate_url, ServiceError};

#[test]
fn plain_text_is_rejected() {
    assert!(matches!(validate_url("not-a-url"), Err(ServiceError::InvalidUrl)));
}

#[test]
fn scheme_relative_url_is_rejected() {
    assert!(matches!(validate_url("//example.com"), Err(ServiceError::InvalidUrl)));
}

#[test]
fn empty_string_is_rejected() {
    assert!(matches!(validate_url(""), Err(ServiceError::InvalidUrl)));
}

#[test]
fn absolute_url_is_accepted_and_serialized() {
    let r = validate_url("https://example.com");
    assert_eq!(r, Ok("https://example.com/".to_string()));
}

#[test]
fn http_url_with_path_is_accepted() {
    let r = validate_url("http://example.com/a/b?c=d");
    assert_eq!(r, Ok("http://example.com/a/b?c=d".to_string()));
}

#[test]
fn invalid_url_is_answered_with_400() {
    let e = validate_url("no scheme here").unwrap_err();
    assert_eq!(e, ServiceError::InvalidUrl);
    assert_eq!(e.status_code(), 400);
}
