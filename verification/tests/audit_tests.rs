use auth_core::build_audit_entry;
use auth_core::cap_body;
use auth_core::capture_body;
use auth_core::sanitize_json_content;
use auth_core::MAX_BODY_LOG_BYTES;

#[test]
fn json_password_is_redacted_and_email_untouched() {
    let body = "{\"email\":\"a@b.com\",\"password\":\"secret123\"}";
    let stored = sanitize_json_content(body);
    assert_eq!(stored, "{\"email\":\"a@b.com\",\"password\":\"[REDACTED]\"}");
}

#[test]
fn every_denylisted_key_is_redacted() {
    let body = "{\"api_key\":\"k\",\"jwt\":\"j\",\"note\":\"keep\"}";
    let stored = sanitize_json_content(body);
    assert_eq!(
        stored,
        "{\"api_key\":\"[REDACTED]\",\"jwt\":\"[REDACTED]\",\"note\":\"keep\"}"
    );
}

#[test]
fn non_json_bodies_get_the_best_effort_pass() {
    let stored = sanitize_json_content("password: hunter2 and more");
    assert_eq!(stored, "password: [REDACTED] and more");

    let stored = sanitize_json_content("token = abc");
    assert_eq!(stored, "token = [REDACTED]");

    let stored = sanitize_json_content("user=a&password=b");
    assert_eq!(stored, "user=a&password=b");

    let stored = sanitize_json_content("nothing sensitive here");
    assert_eq!(stored, "nothing sensitive here");
}

#[test]
fn json_arrays_take_the_fallback_path() {
    // only a top-level object is redacted structurally
    let stored = sanitize_json_content("[{\"password\": 1}]");
    assert_eq!(stored, "[{\"password\": [REDACTED]}]");
}

#[test]
fn redaction_is_idempotent() {
    let once = sanitize_json_content("{\"email\":\"a@b.com\",\"password\":\"secret123\"}");
    let twice = sanitize_json_content(&once);
    assert_eq!(twice, once);
}

#[test]
fn capture_is_a_transparent_wiretap() {
    let body: Vec<u8> = b"{\"password\":\"p\"} echo me".to_vec();
    let original = body.clone();
    let (forward, stored) = capture_body(body);
    // the handler echoing the body sees exactly what came in
    assert_eq!(forward, original);
    // only the stored copy is redacted
    assert!(stored.contains("[REDACTED]") || !stored.contains("p\""));
}

#[test]
fn capture_stays_transparent_beyond_the_cap() {
    let mut body: Vec<u8> = Vec::new();
    while body.len() < 10_000 {
        body.push(b'a');
    }
    let original = body.clone();
    let (forward, stored) = capture_body(body);
    assert_eq!(forward, original);
    assert_eq!(stored.len(), MAX_BODY_LOG_BYTES);
}

#[test]
fn cap_keeps_the_first_bytes_only() {
    let mut body: Vec<u8> = Vec::new();
    let mut i = 0u32;
    while body.len() < 5000 {
        body.push((i % 251) as u8);
        i += 1;
    }
    let capped = cap_body(&body);
    assert_eq!(capped.len(), MAX_BODY_LOG_BYTES);
    assert_eq!(&capped[..], &body[..MAX_BODY_LOG_BYTES]);

    let short: Vec<u8> = vec![1, 2, 3];
    assert_eq!(cap_body(&short), short);
}

#[test]
fn entries_note_error_statuses_and_only_those() {
    let e = build_audit_entry(
        1,
        1_700_000_000,
        "GET".to_string(),
        "/api/v1/users".to_string(),
        404,
        12,
        None,
        None,
        None,
        "".to_string(),
        "".to_string(),
    );
    assert_eq!(e.error_message.as_deref(), Some("Error status: 404"));
    assert_eq!(e.status_code, 404);

    let ok = build_audit_entry(
        2,
        1_700_000_000,
        "GET".to_string(),
        "/".to_string(),
        200,
        3,
        Some(9),
        Some("10.0.0.1".to_string()),
        Some("curl".to_string()),
        "req".to_string(),
        "resp".to_string(),
    );
    assert!(ok.error_message.is_none());
    assert_eq!(ok.request_body.as_deref(), Some("req"));
    assert_eq!(ok.response_body.as_deref(), Some("resp"));
    assert_eq!(ok.user_id, Some(9));
}

#[test]
fn echo_handlers_see_and_return_the_untouched_body() {
    // the wrap order of one request: capture the request, let the handler
    // echo it, capture the response
    let request: Vec<u8> = b"{\"password\":\"secret123\",\"note\":\"echo\"}".to_vec();
    let expected = request.clone();
    let (to_handler, request_log) = capture_body(request);
    // an echoing handler
    let response = to_handler;
    let (to_client, response_log) = capture_body(response);
    assert_eq!(to_client, expected);
    // both stored copies are redacted, the wire is not
    assert!(request_log.contains("[REDACTED]"));
    assert!(response_log.contains("[REDACTED]"));
    assert!(!request_log.contains("secret123"));
}
