use site_meta::handler::{process_response, response_parts, FetchOutcome, ServiceError};

#[test]
fn fetched_body_is_extracted_and_answered_200() {
    let body = "<html><head><title>Example</title></head></html>".to_string();
    let result = process_response(FetchOutcome::Body(body));
    let data = result.as_ref().unwrap();
    assert_eq!(data.title, "Example");
    let (status, reply) = response_parts(&result);
    assert_eq!(status, 200);
    assert_eq!(
        reply.unwrap(),
        "{\"title\":\"Example\",\"description\":\"Description not found\",\"favicon\":\"Favicon not found\",\"og_image\":\"og:image not found\"}"
    );
}

#[test]
fn failed_send_is_answered_500_without_body() {
    let result = process_response(FetchOutcome::SendFailed);
    assert!(matches!(result, Err(ServiceError::FetchFailed)));
    let (status, reply) = response_parts(&result);
    assert_eq!(status, 500);
    assert!(reply.is_none());
}

#[test]
fn unreadable_body_is_answered_500_without_body() {
    let result = process_response(FetchOutcome::ReadFailed);
    assert!(matches!(result, Err(ServiceError::ReadFailed)));
    let (status, reply) = response_parts(&result);
    assert_eq!(status, 500);
    assert!(reply.is_none());
}

#[test]
fn refused_url_is_answered_400_without_body() {
    let result = Err(ServiceError::InvalidUrl);
    let (status, reply) = response_parts(&result);
    assert_eq!(status, 400);
    assert!(reply.is_none());
}

#[test]
fn error_statuses() {
    assert_eq!(ServiceError::InvalidUrl.status_code(), 400);
    assert_eq!(ServiceError::FetchFailed.status_code(), 500);
    assert_eq!(ServiceError::ReadFailed.status_code(), 500);
}
