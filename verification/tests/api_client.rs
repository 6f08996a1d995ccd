use immichsync::api::{status_error, ApiError, ImmichClient};

#[test]
fn new_trims_trailing_slashes_and_has_no_bandwidth_limit() {
    let c = ImmichClient::new("https://photos.example.com///", "secret-key").unwrap();
    assert_eq!(c.base_url, "https://photos.example.com");
    assert_eq!(c.api_key, "secret-key");
    assert_eq!(c.bandwidth_limit_bps, 0);
}

#[test]
fn url_joins_base_and_path() {
    let c = ImmichClient::new("https://photos.example.com/", "k").unwrap();
    assert_eq!(c.url("/api/server/ping"), "https://photos.example.com/api/server/ping");
}

#[test]
fn bandwidth_limit_is_converted_to_bytes() {
    let c = ImmichClient::with_bandwidth_limit("http://nas:2283", "k", 10).unwrap();
    assert_eq!(c.bandwidth_limit_bps, 10 * 1024);
    assert_eq!(c.base_url, "http://nas:2283");
}

#[test]
fn base_url_without_slash_is_kept() {
    let c = ImmichClient::new("http://a/b", "k").unwrap();
    assert_eq!(c.base_url, "http://a/b");
    let c = ImmichClient::new("///", "k").unwrap();
    assert_eq!(c.base_url, "");
}

#[test]
fn api_key_with_control_characters_is_rejected() {
    match ImmichClient::new("https://x", "bad\nkey") {
        Err(ApiError::Unexpected(m)) => {
            assert_eq!(m, "invalid API key characters: failed to parse header value")
        }
        other => panic!("unexpected: {other:?}"),
    }
    assert!(matches!(ImmichClient::new("https://x", "del\x7f"), Err(ApiError::Unexpected(_))));
}

#[test]
fn api_key_with_tab_or_non_ascii_is_accepted() {
    assert!(ImmichClient::new("https://x", "a\tb").is_ok());
    assert!(ImmichClient::new("https://x", "ключ").is_ok());
    assert!(ImmichClient::new("https://x", "").is_ok());
}

fn message(e: &ApiError) -> String {
    match e {
        ApiError::Auth(m)
        | ApiError::NotFound(m)
        | ApiError::ServerError(m)
        | ApiError::BadRequest(m)
        | ApiError::Unexpected(m) => m.clone(),
        ApiError::RateLimit => "rate limited".to_string(),
        ApiError::Network(e) => e.to_string(),
    }
}

#[test]
fn client_statuses_map_to_their_variants() {
    let e = ImmichClient::map_status_error(400, Some("bad".to_string()));
    assert!(matches!(e, ApiError::BadRequest(ref m) if m == "bad"));
    let e = ImmichClient::map_status_error(401, Some("who".to_string()));
    assert!(matches!(e, ApiError::Auth(ref m) if m == "who"));
    let e = ImmichClient::map_status_error(404, Some("gone".to_string()));
    assert!(matches!(e, ApiError::NotFound(ref m) if m == "gone"));
    let e = ImmichClient::map_status_error(429, Some("slow".to_string()));
    assert!(matches!(e, ApiError::RateLimit));
}

#[test]
fn server_errors_carry_the_status_line() {
    let e = ImmichClient::map_status_error(500, Some("boom".to_string()));
    assert!(matches!(e, ApiError::ServerError(_)));
    assert_eq!(message(&e), "HTTP 500 Internal Server Error: boom");
    let e = ImmichClient::map_status_error(503, Some("later".to_string()));
    assert_eq!(message(&e), "HTTP 503 Service Unavailable: later");
    let e = ImmichClient::map_status_error(599, Some("x".to_string()));
    assert_eq!(message(&e), "HTTP 599 <unknown status code>: x");
}

#[test]
fn other_statuses_are_unexpected_with_the_code() {
    let e = ImmichClient::map_status_error(418, Some("teapot".to_string()));
    assert!(matches!(e, ApiError::Unexpected(_)));
    assert_eq!(message(&e), "HTTP 418: teapot");
    let e = ImmichClient::map_status_error(302, Some(String::new()));
    assert_eq!(message(&e), "HTTP 302: ");
    let e = ImmichClient::map_status_error(600, Some("b".to_string()));
    assert_eq!(message(&e), "HTTP 600: b");
    let e = ImmichClient::map_status_error(7, Some("b".to_string()));
    assert_eq!(message(&e), "HTTP 7: b");
    let e = ImmichClient::map_status_error(65535, Some("b".to_string()));
    assert_eq!(message(&e), "HTTP 65535: b");
}

#[test]
fn unreadable_body_uses_placeholder() {
    let e = ImmichClient::map_status_error(404, None);
    assert_eq!(message(&e), "<unreadable body>");
    let e = ImmichClient::map_status_error(502, None);
    assert_eq!(message(&e), "HTTP 502 Bad Gateway: <unreadable body>");
}

#[test]
fn status_error_uses_given_status_text_for_server_errors_only() {
    let e = status_error(500, "500 Oops", "b");
    assert_eq!(message(&e), "HTTP 500 Oops: b");
    let e = status_error(499, "ignored", "b");
    assert_eq!(message(&e), "HTTP 499: b");
    let e = status_error(401, "ignored", "b");
    assert_eq!(message(&e), "b");
}

#[test]
fn built_client_is_usable_and_cloneable() {
    let c = ImmichClient::with_bandwidth_limit("https://photos.example.com//", "abc", 0).unwrap();
    assert_eq!(c.base_url, "https://photos.example.com");
    assert_eq!(c.api_key, "abc");
    let d = c.clone();
    assert_eq!(d.url("/api/assets"), "https://photos.example.com/api/assets");
}

