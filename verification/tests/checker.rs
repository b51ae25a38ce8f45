use morpheus_status::checker::{check_outcome, classify, proxy_health_url, OK_STATUS, TIMEOUT_SECS};
use morpheus_status::digits::u16_to_decimal;
use morpheus_status::encoding::utf8_is_valid;
use morpheus_status::outcome::{FetchOutcome, HealthError};

#[test]
fn healthy_ok_body() {
    let r = check_outcome(FetchOutcome::Response(200, b"OK".to_vec()));
    assert_eq!(r, Ok("OK".to_string()));
}

#[test]
fn healthy_empty_body() {
    let r = check_outcome(FetchOutcome::Response(200, Vec::new()));
    assert_eq!(r, Ok(String::new()));
}

#[test]
fn healthy_multibyte_body() {
    let text = "all services \u{2713} — héalthy";
    let r = check_outcome(FetchOutcome::Response(200, text.as_bytes().to_vec()));
    assert_eq!(r, Ok(text.to_string()));
}

#[test]
fn status_error_contains_code() {
    let r = check_outcome(FetchOutcome::StatusError(503));
    assert_eq!(r, Err("HTTP 503".to_string()));
}

#[test]
fn non_ok_response_status_fails() {
    let r = check_outcome(FetchOutcome::Response(204, Vec::new()));
    assert_eq!(r, Err("HTTP 204".to_string()));
    let r = check_outcome(FetchOutcome::Response(301, b"moved".to_vec()));
    assert_eq!(r, Err("HTTP 301".to_string()));
}

#[test]
fn connection_refused_reported() {
    let r = check_outcome(FetchOutcome::Transport(
        "Connection refused (os error 111)".to_string(),
    ));
    assert_eq!(
        r,
        Err("connection failed: Connection refused (os error 111)".to_string())
    );
}

#[test]
fn timeout_reported() {
    let r = check_outcome(FetchOutcome::Transport("timed out reading response".to_string()));
    let message = r.unwrap_err();
    assert!(message.contains("timed out"));
    assert_eq!(message, "connection failed: timed out reading response");
}

#[test]
fn invalid_utf8_body_reported() {
    let r = check_outcome(FetchOutcome::Response(200, vec![0xff, 0xfe, 0x4f]));
    assert_eq!(
        r,
        Err("failed to read response: invalid UTF-8 in response body".to_string())
    );
}

#[test]
fn body_read_failure_reported() {
    let r = check_outcome(FetchOutcome::ReadFailed("unexpected end of file".to_string()));
    assert_eq!(
        r,
        Err("failed to read response: unexpected end of file".to_string())
    );
}

#[test]
fn repeated_checks_agree() {
    let first = check_outcome(FetchOutcome::Response(200, b"OK".to_vec()));
    let second = check_outcome(FetchOutcome::Response(200, b"OK".to_vec()));
    assert_eq!(first, second);
    let first = check_outcome(FetchOutcome::StatusError(503));
    let second = check_outcome(FetchOutcome::StatusError(503));
    assert_eq!(first, second);
}

#[test]
fn classify_keeps_the_failure_stage() {
    assert_eq!(
        classify(FetchOutcome::Transport("refused".to_string())),
        Err(HealthError::Transport("refused".to_string()))
    );
    assert_eq!(
        classify(FetchOutcome::StatusError(500)),
        Err(HealthError::NonOkStatus(500))
    );
    assert_eq!(
        classify(FetchOutcome::Response(404, Vec::new())),
        Err(HealthError::NonOkStatus(404))
    );
    assert_eq!(
        classify(FetchOutcome::ReadFailed("broken pipe".to_string())),
        Err(HealthError::BodyDecode("broken pipe".to_string()))
    );
    assert_eq!(
        classify(FetchOutcome::Response(200, vec![0x80])),
        Err(HealthError::BodyDecode("invalid UTF-8 in response body".to_string()))
    );
    assert_eq!(
        classify(FetchOutcome::Response(200, b"fine".to_vec())),
        Ok("fine".to_string())
    );
}

#[test]
fn messages_render_each_stage() {
    assert_eq!(
        HealthError::Transport("no route to host".to_string()).message(),
        "connection failed: no route to host"
    );
    assert_eq!(HealthError::NonOkStatus(429).message(), "HTTP 429");
    assert_eq!(
        HealthError::BodyDecode("stream cut short".to_string()).message(),
        "failed to read response: stream cut short"
    );
}

#[test]
fn decimal_rendering_is_exact() {
    assert_eq!(u16_to_decimal(0), "0");
    assert_eq!(u16_to_decimal(7), "7");
    assert_eq!(u16_to_decimal(42), "42");
    assert_eq!(u16_to_decimal(200), "200");
    assert_eq!(u16_to_decimal(503), "503");
    assert_eq!(u16_to_decimal(65535), "65535");
}

#[test]
fn utf8_validity_edge_cases() {
    assert!(utf8_is_valid(b""));
    assert!(utf8_is_valid(b"plain ascii"));
    assert!(utf8_is_valid("héllo ✓ 𝄞".as_bytes()));
    // The largest scalar, U+10FFFF.
    assert!(utf8_is_valid(&[0xf4, 0x8f, 0xbf, 0xbf]));
    // A stray continuation byte.
    assert!(!utf8_is_valid(&[0x80]));
    // A truncated 2-byte encoding.
    assert!(!utf8_is_valid(&[0xc3]));
    // An overlong 2-byte encoding of '/'.
    assert!(!utf8_is_valid(&[0xc0, 0xaf]));
    // An overlong 3-byte encoding.
    assert!(!utf8_is_valid(&[0xe0, 0x80, 0x80]));
    // A surrogate codepoint, U+D800.
    assert!(!utf8_is_valid(&[0xed, 0xa0, 0x80]));
    // One past the largest scalar.
    assert!(!utf8_is_valid(&[0xf4, 0x90, 0x80, 0x80]));
    // A lead byte beyond any scalar.
    assert!(!utf8_is_valid(&[0xf5, 0x80, 0x80, 0x80]));
    // Valid text followed by an invalid suffix.
    assert!(!utf8_is_valid(b"ok so far \xc3"));
}

#[test]
fn endpoint_is_fixed() {
    assert_eq!(proxy_health_url(), "http://127.0.0.1:8083/health");
    assert_eq!(TIMEOUT_SECS, 5);
    assert_eq!(OK_STATUS, 200);
}
