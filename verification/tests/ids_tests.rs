use auth_core::fresh_uuid;
use auth_core::parse_bearer;
use auth_core::parse_uuid_text;
use auth_core::uuid_text;
use auth_core::AppError;
use auth_core::ErrorResponse;
use auth_core::LoggingManager;

#[test]
fn canonical_id_text_parses_back_to_its_id() {
    for id in [0u128, 1, u128::MAX, 0x550e8400e29b41d4a716446655440000] {
        let text = uuid_text(id);
        assert_eq!(text.len(), 36);
        assert_eq!(parse_uuid_text(&text), Some(id));
    }
    assert_eq!(parse_uuid_text("not-an-id"), None);
}

#[test]
fn fresh_ids_are_fresh() {
    let a = fresh_uuid();
    let b = fresh_uuid();
    assert_ne!(a, b);
}

#[test]
fn request_ids_are_canonical_texts() {
    let id = LoggingManager::generate_request_id();
    assert_eq!(id.len(), 36);
    assert!(parse_uuid_text(&id).is_some());
}

#[test]
fn bearer_scheme_is_matched_exactly() {
    assert_eq!(parse_bearer("Bearer abc.def.ghi").as_deref(), Some("abc.def.ghi"));
    assert_eq!(parse_bearer("Bearer "), Some(String::new()));
    assert_eq!(parse_bearer("bearer abc"), None);
    assert_eq!(parse_bearer("Bearer"), None);
    assert_eq!(parse_bearer(""), None);
}

#[test]
fn internal_errors_carry_a_generic_message_only() {
    let e = AppError::internal();
    assert_eq!(e.status_code, 500);
    assert_eq!(e.message, "Internal server error");
    let visible = ErrorResponse::of(&e);
    assert_eq!(visible.message, e.message);
}
