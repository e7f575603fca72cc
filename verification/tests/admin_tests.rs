use auth_core::AdminLoginRequest;
use auth_core::AdminService;
use auth_core::CreateUserRequest;
use auth_core::Directory;
use auth_core::LogsQueryParams;
use auth_core::Role;
use auth_core::TokenService;
use auth_core::UpdateUserRequest;
use auth_core::UserService;
use auth_core::UsersQueryParams;
use auth_core::build_audit_entry;
use auth_core::resolve_log_filters;

const ADMIN_ROLE: u64 = 1;

fn admin_role() -> Role {
    Role {
        id: ADMIN_ROLE,
        name: "admin".to_string(),
        description: "all permissions".to_string(),
        permissions: vec!["*".to_string()],
        created_at: 0,
        updated_at: 0,
    }
}

fn seeded_directory() -> (Directory, u128) {
    let mut dir = Directory::new();
    assert!(dir.insert_role(admin_role()).is_ok());
    let admin = AdminService::create_user(
        &mut dir,
        CreateUserRequest {
            email: "admin@example.com".to_string(),
            password: "adminpass".to_string(),
            is_admin: Some(true),
        },
        Some(ADMIN_ROLE),
        0,
    )
    .unwrap_or_else(|_| panic!("seeding the admin failed"));
    let id = uuid::Uuid::parse_str(&admin.id).expect("admin id").as_u128();
    (dir, id)
}

#[test]
fn admin_cannot_delete_its_own_account() {
    let (mut dir, admin_id) = seeded_directory();
    match AdminService::delete_user(&mut dir, admin_id, admin_id) {
        Ok(_) => panic!("self-deletion must never succeed"),
        Err(e) => {
            assert_eq!(e.status_code, 400);
            assert_eq!(e.message, "Cannot delete your own account");
        }
    }
    // the account is still there
    assert!(UserService::find_user_by_id(&dir, admin_id).is_some());
}

#[test]
fn admin_deletes_other_accounts() {
    let (mut dir, admin_id) = seeded_directory();
    let other = AdminService::create_user(
        &mut dir,
        CreateUserRequest {
            email: "other@example.com".to_string(),
            password: "longenough".to_string(),
            is_admin: None,
        },
        Some(ADMIN_ROLE),
        0,
    )
    .unwrap_or_else(|_| panic!("creating the other user failed"));
    let other_id = uuid::Uuid::parse_str(&other.id).expect("other id").as_u128();
    assert!(AdminService::delete_user(&mut dir, other_id, admin_id).is_ok());
    assert!(UserService::find_user_by_id(&dir, other_id).is_none());
}

#[test]
fn admin_login_requires_the_admin_role() {
    let (mut dir, _) = seeded_directory();
    AdminService::create_user(
        &mut dir,
        CreateUserRequest {
            email: "plain@example.com".to_string(),
            password: "longenough".to_string(),
            is_admin: None,
        },
        Some(ADMIN_ROLE),
        0,
    )
    .unwrap_or_else(|_| panic!("creating the plain user failed"));
    let svc = TokenService::new(b"test-signing-secret".to_vec());

    // a plain identity is forbidden, before any password check
    let req = AdminLoginRequest {
        email: "plain@example.com".to_string(),
        password: "longenough".to_string(),
    };
    match AdminService::authenticate_admin(&dir, req, &svc, 0) {
        Ok(_) => panic!("a non-admin must not pass admin login"),
        Err(e) => assert_eq!(e.status_code, 403),
    }

    // the admin logs in and the token verifies
    let req = AdminLoginRequest {
        email: "admin@example.com".to_string(),
        password: "adminpass".to_string(),
    };
    let resp = AdminService::authenticate_admin(&dir, req, &svc, 0)
        .unwrap_or_else(|_| panic!("admin login failed"));
    assert_eq!(resp.email, "admin@example.com");
    let id = uuid::Uuid::parse_str(&resp.admin_id).expect("admin id").as_u128();
    assert_eq!(svc.verify(&resp.token, 0), Ok(id));

    // a wrong admin password is unauthorized
    let req = AdminLoginRequest {
        email: "admin@example.com".to_string(),
        password: "wrongpass".to_string(),
    };
    match AdminService::authenticate_admin(&dir, req, &svc, 0) {
        Ok(_) => panic!("a wrong password must not pass"),
        Err(e) => assert_eq!(e.status_code, 401),
    }
}

#[test]
fn user_listing_filters_and_paginates() {
    let (mut dir, _) = seeded_directory();
    for i in 0..3 {
        AdminService::create_user(
            &mut dir,
            CreateUserRequest {
                email: format!("user{}@corp.example", i),
                password: "longenough".to_string(),
                is_admin: None,
            },
            Some(ADMIN_ROLE),
            i,
        )
        .unwrap_or_else(|_| panic!("creating a user failed"));
    }

    let all = AdminService::get_users(
        &dir,
        &UsersQueryParams { page: 1, limit: 25, search: None, is_admin: None },
    );
    assert_eq!(all.pagination.total, 4);
    assert_eq!(all.pagination.total_pages, 1);
    assert_eq!(all.data.len(), 4);

    let admins = AdminService::get_users(
        &dir,
        &UsersQueryParams { page: 1, limit: 25, search: None, is_admin: Some(true) },
    );
    assert_eq!(admins.pagination.total, 1);
    assert_eq!(admins.data[0].email, "admin@example.com");
    assert_eq!(admins.data[0].is_admin, Some(true));

    let corp = AdminService::get_users(
        &dir,
        &UsersQueryParams { page: 1, limit: 2, search: Some("corp".to_string()), is_admin: None },
    );
    assert_eq!(corp.pagination.total, 3);
    assert_eq!(corp.pagination.total_pages, 2);
    assert_eq!(corp.data.len(), 2);
    // newest first: the latest creation leads the page
    assert_eq!(corp.data[0].email, "user2@corp.example");
    let corp_page2 = AdminService::get_users(
        &dir,
        &UsersQueryParams { page: 2, limit: 2, search: Some("corp".to_string()), is_admin: None },
    );
    assert_eq!(corp_page2.data.len(), 1);
    assert_eq!(corp_page2.data[0].email, "user0@corp.example");
}

#[test]
fn audit_log_listing_filters_by_method_and_status() {
    let (mut dir, admin_id) = seeded_directory();
    dir.insert_audit_log(build_audit_entry(
        10,
        100,
        "GET".to_string(),
        "/a".to_string(),
        200,
        5,
        Some(admin_id),
        None,
        None,
        "".to_string(),
        "".to_string(),
    ));
    dir.insert_audit_log(build_audit_entry(
        11,
        200,
        "POST".to_string(),
        "/b".to_string(),
        401,
        7,
        None,
        None,
        None,
        "".to_string(),
        "".to_string(),
    ));

    let f = resolve_log_filters(&LogsQueryParams {
        page: 1,
        limit: 25,
        method: Some("POST".to_string()),
        status_code: None,
        user_id: None,
        start_date: None,
        end_date: None,
    });
    let page = AdminService::get_audit_logs(&dir, &f, 1, 25);
    assert_eq!(page.pagination.total, 1);
    assert_eq!(page.data[0].path, "/b");
    assert_eq!(page.data[0].status_code, Some(401));
    assert_eq!(page.data[0].error_message.as_deref(), Some("Error status: 401"));

    let f = resolve_log_filters(&LogsQueryParams {
        page: 1,
        limit: 25,
        method: None,
        status_code: Some(200),
        user_id: Some(uuid::Uuid::from_u128(admin_id).to_string()),
        start_date: None,
        end_date: None,
    });
    let page = AdminService::get_audit_logs(&dir, &f, 1, 25);
    assert_eq!(page.pagination.total, 1);
    assert_eq!(page.data[0].method, "GET");
    assert_eq!(
        page.data[0].user_id.as_deref(),
        Some(uuid::Uuid::from_u128(admin_id).to_string().as_str())
    );
}

#[test]
fn get_and_update_user_round_trip() {
    let (mut dir, admin_id) = seeded_directory();
    let got = AdminService::get_user(&dir, admin_id).unwrap_or_else(|_| panic!("get failed"));
    assert_eq!(got.email, "admin@example.com");
    assert_eq!(got.is_admin, Some(true));

    match AdminService::get_user(&dir, admin_id ^ 1) {
        Ok(_) => panic!("an unknown id must be 404"),
        Err(e) => assert_eq!(e.status_code, 404),
    }

    // demoting the admin drops the role
    let demoted = AdminService::update_user(
        &mut dir,
        admin_id,
        UpdateUserRequest { email: None, password: None, is_admin: Some(false) },
        Some(ADMIN_ROLE),
    )
    .unwrap_or_else(|_| panic!("update failed"));
    assert_eq!(demoted.is_admin, Some(false));
}

#[test]
fn zero_page_and_limit_are_treated_as_one() {
    let (dir, _) = seeded_directory();
    let page = AdminService::get_users(
        &dir,
        &UsersQueryParams { page: 0, limit: 0, search: None, is_admin: None },
    );
    assert_eq!(page.pagination.total, 1);
    assert_eq!(page.pagination.total_pages, 1);
    assert_eq!(page.data.len(), 1);
}

#[test]
fn date_filters_bound_the_trail() {
    let (mut dir, _) = seeded_directory();
    for (id, ts) in [(1u128, 100u64), (2, 200), (3, 300)] {
        dir.insert_audit_log(build_audit_entry(
            id,
            ts,
            "GET".to_string(),
            "/x".to_string(),
            200,
            1,
            None,
            None,
            None,
            "".to_string(),
            "".to_string(),
        ));
    }
    let f = resolve_log_filters(&LogsQueryParams {
        page: 1,
        limit: 25,
        method: None,
        status_code: None,
        user_id: None,
        start_date: Some("1970-01-01T00:02:30+00:00".to_string()),
        end_date: Some("1970-01-01T00:05:00+00:00".to_string()),
    });
    let page = AdminService::get_audit_logs(&dir, &f, 1, 25);
    assert_eq!(page.pagination.total, 2);

    // an unparseable bound drops that filter rather than erroring
    let f = resolve_log_filters(&LogsQueryParams {
        page: 1,
        limit: 25,
        method: None,
        status_code: None,
        user_id: None,
        start_date: Some("not a date".to_string()),
        end_date: None,
    });
    let page = AdminService::get_audit_logs(&dir, &f, 1, 25);
    assert_eq!(page.pagination.total, 3);
}

#[test]
fn bookkeeping_tables_are_recognized() {
    assert!(auth_core::is_system_table("sqlite_master"));
    assert!(auth_core::is_system_table("_sqlx_migrations"));
    assert!(auth_core::is_system_table("seaql_migrations"));
    assert!(!auth_core::is_system_table("users"));
    assert!(!auth_core::is_system_table("audit_logs"));
}
