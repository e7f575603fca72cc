use auth_core::AvailablePermissionsResponse;
use auth_core::CheckPermissionResponse;
use auth_core::Permission;
use auth_core::PermissionService;
use auth_core::UserPermissionsResponse;

#[test]
fn identifiers_round_trip_to_their_variant() {
    let all = PermissionService::get_all_permissions();
    assert_eq!(all.len(), 6);
    for p in &all {
        assert_eq!(Permission::from_string(&p.to_string()), *p);
        assert_ne!(*p, Permission::Unknown);
    }
}

#[test]
fn unknown_identifiers_resolve_to_the_sentinel_and_fail_closed() {
    assert_eq!(Permission::from_string("users.reed"), Permission::Unknown);
    assert_eq!(Permission::from_string(""), Permission::Unknown);
    assert_eq!(Permission::from_string("USERS.READ"), Permission::Unknown);

    // even a wildcard set never grants the sentinel
    let wild = vec!["*".to_string()];
    assert!(!PermissionService::has_permission(&wild, &Permission::Unknown));
}

#[test]
fn sets_grant_by_literal_id_or_wildcard() {
    let set = vec!["users.read".to_string(), "logs.read".to_string()];
    assert!(PermissionService::has_permission(&set, &Permission::UsersRead));
    assert!(PermissionService::has_permission(&set, &Permission::LogsRead));
    assert!(!PermissionService::has_permission(&set, &Permission::UsersDelete));

    let wild = vec!["*".to_string()];
    assert!(PermissionService::has_permission(&wild, &Permission::UsersDelete));
    assert!(PermissionService::has_permission(&wild, &Permission::SystemRead));

    let empty: Vec<String> = Vec::new();
    assert!(!PermissionService::has_permission(&empty, &Permission::UsersRead));
}

#[test]
fn check_response_reports_the_evaluation() {
    let set = vec!["users.read".to_string()];
    let r = CheckPermissionResponse::evaluate(7, "users.read".to_string(), &set);
    assert!(r.has_permission);
    assert_eq!(r.permission, "users.read");
    assert_eq!(r.user_id, uuid::Uuid::from_u128(7).to_string());
    assert_eq!(r.permission_description, "View user accounts and their details");

    let r = CheckPermissionResponse::evaluate(7, "gibberish".to_string(), &set);
    assert!(!r.has_permission);
    assert_eq!(r.permission_description, "Unrecognized permission");
}

#[test]
fn the_catalog_is_enumerable_with_descriptions_and_categories() {
    let r = AvailablePermissionsResponse::build();
    assert_eq!(r.total_count, 6);
    assert_eq!(r.permissions.len(), 6);
    assert_eq!(r.categories.len(), 3);
    assert_eq!(r.permissions[0].name, "users.read");
    assert_eq!(r.permissions[0].category, "Users");
    assert_eq!(r.permissions[5].name, "*");
    assert_eq!(r.permissions[5].description, "All permissions");

    let names: Vec<&str> = r.permissions.iter().map(|p| p.name.as_str()).collect();
    assert!(names.contains(&"logs.read"));
    assert!(names.contains(&"system.read"));
}

#[test]
fn user_permissions_response_counts_its_set() {
    let set = vec!["users.read".to_string(), "*".to_string()];
    let r = UserPermissionsResponse::of(3, set.clone());
    assert_eq!(r.permission_count, 2);
    assert_eq!(r.permissions, set);
    assert_eq!(r.user_id, uuid::Uuid::from_u128(3).to_string());
}
