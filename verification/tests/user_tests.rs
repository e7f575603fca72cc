use auth_core::format_timestamp;
use auth_core::validate_email;
use auth_core::validate_login_input;
use auth_core::validate_password;
use auth_core::validate_registration_input;
use auth_core::User;
use auth_core::UserLogin;
use auth_core::UserRegistration;

#[test]
fn registration_input_rules() {
    assert!(validate_registration_input(&"a@b.c".to_string(), &"123456".to_string()).is_ok());
    assert!(validate_registration_input(&"".to_string(), &"123456".to_string()).is_err());
    assert!(validate_registration_input(&"a@b.c".to_string(), &"".to_string()).is_err());
    assert!(validate_registration_input(&"a@b.c".to_string(), &"12345".to_string()).is_err());
}

#[test]
fn login_input_rules() {
    assert!(validate_login_input(&"a@b.c".to_string(), &"x".to_string()).is_ok());
    assert!(validate_login_input(&"".to_string(), &"x".to_string()).is_err());
    assert!(validate_login_input(&"a@b.c".to_string(), &"".to_string()).is_err());
}

#[test]
fn email_and_password_shape_rules() {
    assert!(validate_email(&"a@b".to_string()).is_ok());
    assert!(validate_email(&"plain".to_string()).is_err());
    assert!(validate_email(&"".to_string()).is_err());
    assert!(validate_password(&"123456".to_string()).is_ok());
    assert!(validate_password(&"12345".to_string()).is_err());
}

#[test]
fn domain_constructors_keep_their_fields() {
    let r = UserRegistration::new("a@b.c".to_string(), "p".to_string());
    assert_eq!(r.email, "a@b.c");
    assert_eq!(r.password, "p");

    let l = UserLogin::new("a@b.c".to_string(), "p".to_string());
    assert_eq!(l.email, "a@b.c");
    assert_eq!(l.password, "p");

    let u = User::new(5, "a@b.c".to_string(), "hash".to_string(), Some(10), None, Some(2));
    assert_eq!(u.id, 5);
    assert_eq!(u.created_at, Some(10));
    assert_eq!(u.role_id, Some(2));

    let fresh = User::create_new("n@b.c".to_string(), "hash".to_string(), 77);
    assert_eq!(fresh.created_at, Some(77));
    assert!(fresh.last_login.is_none());
    assert!(fresh.role_id.is_none());
}

#[test]
fn timestamps_render_as_rfc3339() {
    assert_eq!(format_timestamp(None), None);
    let rendered = format_timestamp(Some(0)).expect("epoch renders");
    assert_eq!(rendered, "1970-01-01T00:00:00+00:00");
    let rendered = format_timestamp(Some(1431648000)).expect("renders");
    assert_eq!(rendered, "2015-05-15T00:00:00+00:00");
}
