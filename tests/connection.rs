use snowflake_api::connection::{
    base_url, exhausted_error, next_retry_step, request_url, status_error, AttemptOutcome,
    ConnectionError, QueryType, RequestIds, RetryStep,
};

#[test]
fn endpoints_have_paths_and_mimes() {
    let c = QueryType::LoginRequest.query_context();
    assert_eq!((c.path, c.accept_mime), ("session/v1/login-request", "application/json"));
    let c = QueryType::ArrowQuery.query_context();
    assert_eq!((c.path, c.accept_mime), ("queries/v1/query-request", "application/snowflake"));
    let c = QueryType::TokenRequest.query_context();
    assert_eq!((c.path, c.accept_mime), ("session/token-request", "application/snowflake"));
}

#[test]
fn base_url_names_account() {
    assert_eq!(
        base_url("ACME", QueryType::JsonQuery),
        "https://ACME.snowflakecomputing.com/queries/v1/query-request"
    );
}

#[test]
fn request_url_carries_ids_then_extras() {
    let ids = RequestIds {
        client_start_time: "1700000000".to_string(),
        request_id: "r1".to_string(),
        request_guid: "g1".to_string(),
    };
    let url = request_url(QueryType::CloseSession, "acme", &ids, &vec![("delete".to_string(), "true".to_string())]).unwrap();
    assert_eq!(
        url,
        "https://acme.snowflakecomputing.com/session?clientStartTime=1700000000&requestId=r1&request_guid=g1&delete=true"
    );
}

#[test]
fn bad_account_fails_url_parsing() {
    let ids = RequestIds { client_start_time: "1".to_string(), request_id: "r".to_string(), request_guid: "g".to_string() };
    assert!(matches!(request_url(QueryType::LoginRequest, "a b/[", &ids, &vec![]), Err(ConnectionError::UrlParsing(_))));
}

#[test]
fn three_transient_failures_then_success() {
    let outcomes = [503u16, 503, 503, 200];
    let mut delivered = None;
    for (n, s) in outcomes.iter().enumerate() {
        match next_retry_step(AttemptOutcome::Status(*s), n as u32) {
            RetryStep::RetryAfterMillis(_) => continue,
            RetryStep::Deliver => {
                delivered = Some(*s);
                break;
            }
            RetryStep::GiveUp => break,
        }
    }
    assert_eq!(delivered, Some(200));
}

#[test]
fn four_transient_failures_give_up() {
    let mut last = RetryStep::Deliver;
    for n in 0..4u32 {
        last = next_retry_step(AttemptOutcome::Status(503), n);
        if last == RetryStep::GiveUp {
            break;
        }
    }
    assert_eq!(last, RetryStep::GiveUp);
    assert!(matches!(exhausted_error(), ConnectionError::RequestError(_)));
}

#[test]
fn client_errors_are_not_retried() {
    assert_eq!(next_retry_step(AttemptOutcome::Status(404), 0), RetryStep::Deliver);
    assert!(matches!(next_retry_step(AttemptOutcome::Status(429), 0), RetryStep::RetryAfterMillis(_)));
    assert!(matches!(next_retry_step(AttemptOutcome::Status(408), 2), RetryStep::RetryAfterMillis(_)));
    assert!(matches!(next_retry_step(AttemptOutcome::ConnectFailed, 1), RetryStep::RetryAfterMillis(_)));
}

#[test]
fn statuses_map_to_errors() {
    assert!(matches!(status_error(403, "acme", "no"), Some(ConnectionError::InvalidAccountIdentifier(a)) if a == "acme"));
    assert!(matches!(status_error(500, "acme", "boom"), Some(ConnectionError::UnexpectedResponse(b)) if b == "boom"));
    assert!(status_error(200, "acme", "{}").is_none());
}
