use auth_core::identity_gate;
use auth_core::privilege_gate;
use auth_core::AuthUser;
use auth_core::Permission;
use auth_core::Role;
use auth_core::TokenService;

fn service() -> TokenService {
    TokenService::new(b"test-signing-secret".to_vec())
}

fn role_with(perms: &[&str]) -> Role {
    Role {
        id: 1,
        name: "operators".to_string(),
        description: "test role".to_string(),
        permissions: perms.iter().map(|p| p.to_string()).collect(),
        created_at: 0,
        updated_at: 0,
    }
}

#[test]
fn missing_header_is_401_and_handler_never_runs() {
    let svc = service();
    let mut handler_calls = 0;
    match identity_gate(None, &svc, 1_700_000_000) {
        Ok(_) => {
            handler_calls += 1;
        }
        Err(e) => {
            assert_eq!(e.status_code, 401);
            assert_eq!(e.message, "Missing Authorization header");
        }
    }
    assert_eq!(handler_calls, 0);
}

#[test]
fn malformed_header_is_401() {
    let svc = service();
    let header = "Basic dXNlcjpwYXNz".to_string();
    match identity_gate(Some(&header), &svc, 1_700_000_000) {
        Ok(_) => panic!("a non-bearer header must not pass"),
        Err(e) => {
            assert_eq!(e.status_code, 401);
            assert_eq!(e.message, "Invalid Authorization header format");
        }
    }

    let lowercase = "bearer sometoken".to_string();
    match identity_gate(Some(&lowercase), &svc, 1_700_000_000) {
        Ok(_) => panic!("the scheme is matched exactly"),
        Err(e) => assert_eq!(e.status_code, 401),
    }
}

#[test]
fn valid_bearer_token_passes_and_attaches_the_subject() {
    let svc = service();
    let subject: u128 = 99;
    let now: u64 = 1_700_000_000;
    let token = svc.issue(subject, now);
    let header = format!("Bearer {}", token);
    let mut handler_calls = 0;
    match identity_gate(Some(&header), &svc, now) {
        Ok(user) => {
            assert_eq!(user.user_id, subject);
            handler_calls += 1;
        }
        Err(_) => panic!("a fresh token must pass"),
    }
    assert_eq!(handler_calls, 1);
}

#[test]
fn expired_token_halts_with_its_own_message() {
    let svc = service();
    let now: u64 = 1_700_000_000;
    let token = svc.issue(5, now);
    let header = format!("Bearer {}", token);
    match identity_gate(Some(&header), &svc, now + 90_000) {
        Ok(_) => panic!("an expired token must not pass"),
        Err(e) => {
            assert_eq!(e.status_code, 401);
            assert_eq!(e.message, "Token expired");
        }
    }
}

#[test]
fn missing_permission_is_403_and_wildcard_passes() {
    let user = AuthUser { user_id: 7 };
    let lacking = role_with(&["logs.read"]);
    match privilege_gate(user, "op@example.com".to_string(), Some(&lacking), Permission::UsersDelete) {
        Ok(_) => panic!("a role without the permission must not pass"),
        Err(e) => {
            assert_eq!(e.status_code, 403);
            assert_eq!(e.message, "Access denied: Admin privileges required");
        }
    }

    let wild = role_with(&["*"]);
    match privilege_gate(user, "op@example.com".to_string(), Some(&wild), Permission::UsersDelete) {
        Ok(admin) => {
            assert_eq!(admin.user_id, 7);
            assert_eq!(admin.email, "op@example.com");
        }
        Err(_) => panic!("the wildcard grants every permission"),
    }
}

#[test]
fn literal_permission_match_passes_without_wildcard() {
    let user = AuthUser { user_id: 8 };
    let role = role_with(&["users.delete"]);
    assert!(privilege_gate(user, "a@b.c".to_string(), Some(&role), Permission::UsersDelete).is_ok());
    assert!(privilege_gate(user, "a@b.c".to_string(), Some(&role), Permission::LogsRead).is_err());
}

#[test]
fn no_role_is_403() {
    let user = AuthUser { user_id: 9 };
    match privilege_gate(user, "a@b.c".to_string(), None, Permission::All) {
        Ok(_) => panic!("no role grants nothing"),
        Err(e) => assert_eq!(e.status_code, 403),
    }
}
