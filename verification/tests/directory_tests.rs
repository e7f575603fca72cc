use auth_core::AuthService;
use auth_core::Directory;
use auth_core::UserLogin;
use auth_core::UserRegistration;
use auth_core::UserService;
use auth_core::TokenService;

fn registration(email: &str, password: &str) -> UserRegistration {
    UserRegistration::new(email.to_string(), password.to_string())
}

#[test]
fn concurrent_style_registrations_on_one_email_have_one_winner() {
    let mut dir = Directory::new();
    let attempts = 5;
    let mut winners = 0;
    let mut conflicts = 0;
    // the store linearizes racing inserts; any arrival order is some
    // sequential order of the attempts
    for i in 0..attempts {
        match UserService::create_user(&mut dir, registration("same@example.com", "longenough"), i)
        {
            Ok(_) => winners += 1,
            Err(e) => {
                assert_eq!(e.status_code, 409);
                assert_eq!(e.message, "User already exists");
                conflicts += 1;
            }
        }
    }
    assert_eq!(winners, 1);
    assert_eq!(conflicts, attempts - 1);
}

#[test]
fn registration_validation_messages() {
    let mut dir = Directory::new();
    match UserService::create_user(&mut dir, registration("", "longenough"), 0) {
        Ok(_) => panic!("an empty email must not register"),
        Err(e) => {
            assert_eq!(e.status_code, 400);
            assert_eq!(e.message, "Email and password are required");
        }
    }
    match UserService::create_user(&mut dir, registration("a@b.com", "short"), 0) {
        Ok(_) => panic!("a five-character password must not register"),
        Err(e) => {
            assert_eq!(e.status_code, 400);
            assert_eq!(e.message, "Password must be at least 6 characters");
        }
    }
}

#[test]
fn lookup_and_delete_round_trip() {
    let mut dir = Directory::new();
    let user = UserService::create_user(&mut dir, registration("x@y.z", "longenough"), 42)
        .unwrap_or_else(|_| panic!("registration failed"));
    assert_eq!(user.created_at, Some(42));
    assert!(user.last_login.is_none());

    let by_email = UserService::find_user_by_email(&dir, "x@y.z").expect("lookup by email");
    assert_eq!(by_email.id, user.id);
    let by_id = UserService::find_user_by_id(&dir, user.id).expect("lookup by id");
    assert_eq!(by_id.email, "x@y.z");
    assert!(UserService::find_user_by_email(&dir, "nobody@y.z").is_none());

    assert!(UserService::delete_user(&mut dir, user.id).is_ok());
    assert!(UserService::find_user_by_id(&dir, user.id).is_none());
    match UserService::delete_user(&mut dir, user.id) {
        Ok(_) => panic!("a deleted identity cannot be deleted again"),
        Err(e) => assert_eq!(e.status_code, 404),
    }
}

#[test]
fn update_user_changes_only_what_was_asked() {
    let mut dir = Directory::new();
    let a = UserService::create_user(&mut dir, registration("a@x.io", "longenough"), 0)
        .unwrap_or_else(|_| panic!("registration failed"));
    let _b = UserService::create_user(&mut dir, registration("b@x.io", "longenough"), 0)
        .unwrap_or_else(|_| panic!("registration failed"));

    // taking another identity's email is a conflict
    match UserService::update_user(&mut dir, a.id, Some("b@x.io".to_string()), None, None) {
        Ok(_) => panic!("an email held by another identity must conflict"),
        Err(e) => {
            assert_eq!(e.status_code, 409);
            assert_eq!(e.message, "Email already taken");
        }
    }

    // a malformed email is rejected
    match UserService::update_user(&mut dir, a.id, Some("not-an-email".to_string()), None, None) {
        Ok(_) => panic!("an email without @ must be rejected"),
        Err(e) => assert_eq!(e.status_code, 400),
    }

    let updated = UserService::update_user(
        &mut dir,
        a.id,
        Some("a2@x.io".to_string()),
        Some("newpassword".to_string()),
        None,
    )
    .unwrap_or_else(|_| panic!("update failed"));
    assert_eq!(updated.email, "a2@x.io");
    assert!(UserService::verify_password(&updated, "newpassword").unwrap_or(false));
    assert!(!UserService::verify_password(&updated, "longenough").unwrap_or(true));
}

#[test]
fn login_issues_a_verifiable_token_and_stamps_last_login() {
    let mut dir = Directory::new();
    let svc = TokenService::new(b"test-signing-secret".to_vec());
    let created = UserService::create_user(&mut dir, registration("l@x.io", "longenough"), 0)
        .unwrap_or_else(|_| panic!("registration failed"));

    let now: u64 = 1_700_000_000;
    let login = UserLogin::new("l@x.io".to_string(), "longenough".to_string());
    let auth = AuthService::authenticate_user(&mut dir, login, &svc, now)
        .unwrap_or_else(|_| panic!("login failed"));
    assert_eq!(auth.user_id, created.id);
    assert_eq!(auth.expires_at, now + 86400);
    assert_eq!(svc.verify(&auth.token, now), Ok(created.id));

    let stamped = UserService::find_user_by_id(&dir, created.id).expect("user vanished");
    assert_eq!(stamped.last_login, Some(now));
}

#[test]
fn wrong_password_and_unknown_email_are_indistinguishable() {
    let mut dir = Directory::new();
    let svc = TokenService::new(b"test-signing-secret".to_vec());
    UserService::create_user(&mut dir, registration("l@x.io", "longenough"), 0)
        .unwrap_or_else(|_| panic!("registration failed"));

    let wrong = UserLogin::new("l@x.io".to_string(), "wrongpass1".to_string());
    let e1 = match AuthService::authenticate_user(&mut dir, wrong, &svc, 0) {
        Ok(_) => panic!("a wrong password must not log in"),
        Err(e) => e,
    };
    let unknown = UserLogin::new("ghost@x.io".to_string(), "longenough".to_string());
    let e2 = match AuthService::authenticate_user(&mut dir, unknown, &svc, 0) {
        Ok(_) => panic!("an unknown email must not log in"),
        Err(e) => e,
    };
    assert_eq!(e1.status_code, 401);
    assert_eq!(e2.status_code, 401);
    assert_eq!(e1.message, e2.message);
    assert_eq!(e1.message, "Invalid credentials");
}
