use auth_core::AuthError;
use auth_core::TokenService;
use auth_core::TOKEN_TTL_SECONDS;

fn service() -> TokenService {
    TokenService::new(b"test-signing-secret".to_vec())
}

#[test]
fn issued_token_verifies_to_its_subject_before_expiry() {
    let svc = service();
    let subject: u128 = 0x550e8400e29b41d4a716446655440000;
    let now: u64 = 1_700_000_000;
    let token = svc.issue(subject, now);
    assert_eq!(svc.verify(&token, now), Ok(subject));
    assert_eq!(svc.verify(&token, now + TOKEN_TTL_SECONDS - 1), Ok(subject));
}

#[test]
fn expired_token_is_token_expired_never_a_different_error() {
    let svc = service();
    let subject: u128 = 7;
    let now: u64 = 1_700_000_000;
    let token = svc.issue(subject, now);
    let exp = now + TOKEN_TTL_SECONDS;
    assert_eq!(svc.verify(&token, exp), Err(AuthError::TokenExpired));
    assert_eq!(svc.verify(&token, exp + 1), Err(AuthError::TokenExpired));
    assert_eq!(svc.verify(&token, u64::MAX), Err(AuthError::TokenExpired));
}

#[test]
fn tampered_or_foreign_tokens_are_invalid() {
    let svc = service();
    let now: u64 = 1_700_000_000;
    let token = svc.issue(42, now);
    let mut tampered = token.clone();
    tampered.push('x');
    assert_eq!(svc.verify(&tampered, now), Err(AuthError::InvalidToken));
    assert_eq!(svc.verify("not.a.token", now), Err(AuthError::InvalidToken));

    let other = TokenService::new(b"a different secret".to_vec());
    assert_eq!(other.verify(&token, now), Err(AuthError::InvalidToken));
}

#[test]
fn token_payload_carries_subject_and_expiry() {
    // cross-check the wrapper's claim against jsonwebtoken directly
    let svc = service();
    let subject: u128 = 0xabcdef0123456789abcdef0123456789;
    let now: u64 = 1_700_000_000;
    let token = svc.issue(subject, now);
    let mut validation = jsonwebtoken::Validation::default();
    validation.validate_exp = false;
    let data = jsonwebtoken::decode::<serde_json::Value>(
        &token,
        &jsonwebtoken::DecodingKey::from_secret(b"test-signing-secret"),
        &validation,
    )
    .expect("decode failed");
    let sub = data.claims.get("sub").and_then(|v| v.as_str()).expect("no sub");
    let exp = data.claims.get("exp").and_then(|v| v.as_u64()).expect("no exp");
    assert_eq!(sub, uuid::Uuid::from_u128(subject).to_string());
    assert_eq!(exp, now + TOKEN_TTL_SECONDS);
}
