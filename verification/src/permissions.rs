//! Permission model: a fixed, closed catalog of capabilities, each with a
//! stable string identifier, a human description and a category. Unknown
//! identifiers resolve to a distinguished sentinel that never satisfies a
//! check, so checks against unrecognized strings fail closed. A role's
//! permission set is a list of identifier strings; the wildcard identifier
//! grants every catalogued permission.
use vstd::prelude::*;

use crate::ids::uuid_text;
use crate::ids::uuid_text_of;
use crate::text::str_eq;

verus! {

broadcast use vstd::string::group_string_axioms;

/// The closed catalog of permissions, plus the sentinel for unrecognized
/// identifiers.
#[derive(Clone, Copy, Debug, PartialEq, Eq, Structural)]
pub enum Permission {
    /// View user accounts and their details.
    UsersRead,
    /// Create and update user accounts.
    UsersWrite,
    /// Delete user accounts.
    UsersDelete,
    /// View the audit log.
    LogsRead,
    /// View system health and metrics.
    SystemRead,
    /// The wildcard: grants every catalogued permission.
    All,
    /// The fail-closed sentinel for identifiers outside the catalog.
    Unknown,
}

/// The stable string identifier of a permission.
pub open spec fn permission_id(p: Permission) -> Seq<char> {
    match p {
        Permission::UsersRead => "users.read"@,
        Permission::UsersWrite => "users.write"@,
        Permission::UsersDelete => "users.delete"@,
        Permission::LogsRead => "logs.read"@,
        Permission::SystemRead => "system.read"@,
        Permission::All => "*"@,
        Permission::Unknown => "unknown"@,
    }
}

/// The human description of a permission.
pub open spec fn permission_description(p: Permission) -> Seq<char> {
    match p {
        Permission::UsersRead => "View user accounts and their details"@,
        Permission::UsersWrite => "Create and update user accounts"@,
        Permission::UsersDelete => "Delete user accounts"@,
        Permission::LogsRead => "View the audit log"@,
        Permission::SystemRead => "View system health and metrics"@,
        Permission::All => "All permissions"@,
        Permission::Unknown => "Unrecognized permission"@,
    }
}

/// The category label of a permission.
pub open spec fn permission_category(p: Permission) -> Seq<char> {
    match p {
        Permission::UsersRead => "Users"@,
        Permission::UsersWrite => "Users"@,
        Permission::UsersDelete => "Users"@,
        Permission::LogsRead => "Logs"@,
        Permission::SystemRead => "System"@,
        Permission::All => "System"@,
        Permission::Unknown => "Unknown"@,
    }
}

/// The permission an identifier resolves to: an exact match against the
/// catalog, the sentinel otherwise.
pub open spec fn permission_from_id(s: Seq<char>) -> Permission {
    if s == permission_id(Permission::UsersRead) {
        Permission::UsersRead
    } else if s == permission_id(Permission::UsersWrite) {
        Permission::UsersWrite
    } else if s == permission_id(Permission::UsersDelete) {
        Permission::UsersDelete
    } else if s == permission_id(Permission::LogsRead) {
        Permission::LogsRead
    } else if s == permission_id(Permission::SystemRead) {
        Permission::SystemRead
    } else if s == permission_id(Permission::All) {
        Permission::All
    } else {
        Permission::Unknown
    }
}

/// Whether a permission set grants a permission: the set literally contains
/// the permission's identifier or the wildcard. The sentinel is never
/// granted, so checks on unrecognized identifiers fail closed.
pub open spec fn set_grants(set: Seq<Seq<char>>, p: Permission) -> bool {
    &&& p != Permission::Unknown
    &&& (set.contains(permission_id(p)) || set.contains("*"@))
}

impl Permission {
    /// The stable string identifier of this permission.
    pub fn id_str(&self) -> (r: &'static str)
        ensures
            r@ == permission_id(*self),
    {
        match self {
            Permission::UsersRead => "users.read",
            Permission::UsersWrite => "users.write",
            Permission::UsersDelete => "users.delete",
            Permission::LogsRead => "logs.read",
            Permission::SystemRead => "system.read",
            Permission::All => "*",
            Permission::Unknown => "unknown",
        }
    }

    /// The identifier as an owned string.
    pub fn to_string(&self) -> (r: String)
        ensures
            r@ == permission_id(*self),
    {
        String::from_str(self.id_str())
    }

    /// The human description of this permission.
    pub fn description(&self) -> (r: &'static str)
        ensures
            r@ == permission_description(*self),
    {
        match self {
            Permission::UsersRead => "View user accounts and their details",
            Permission::UsersWrite => "Create and update user accounts",
            Permission::UsersDelete => "Delete user accounts",
            Permission::LogsRead => "View the audit log",
            Permission::SystemRead => "View system health and metrics",
            Permission::All => "All permissions",
            Permission::Unknown => "Unrecognized permission",
        }
    }

    /// The category label of this permission.
    pub fn category(&self) -> (r: &'static str)
        ensures
            r@ == permission_category(*self),
    {
        match self {
            Permission::UsersRead => "Users",
            Permission::UsersWrite => "Users",
            Permission::UsersDelete => "Users",
            Permission::LogsRead => "Logs",
            Permission::SystemRead => "System",
            Permission::All => "System",
            Permission::Unknown => "Unknown",
        }
    }

    /// Resolves an identifier against the catalog; anything unmatched is
    /// the sentinel, never an error.
    pub fn from_string(s: &str) -> (r: Permission)
        ensures
            r == permission_from_id(s@),
    {
        if str_eq(s, "users.read") {
            Permission::UsersRead
        } else if str_eq(s, "users.write") {
            Permission::UsersWrite
        } else if str_eq(s, "users.delete") {
            Permission::UsersDelete
        } else if str_eq(s, "logs.read") {
            Permission::LogsRead
        } else if str_eq(s, "system.read") {
            Permission::SystemRead
        } else if str_eq(s, "*") {
            Permission::All
        } else {
            Permission::Unknown
        }
    }
}

/// The catalog in its fixed order, sentinel excluded.
pub open spec fn catalog() -> Seq<Permission> {
    seq![
        Permission::UsersRead,
        Permission::UsersWrite,
        Permission::UsersDelete,
        Permission::LogsRead,
        Permission::SystemRead,
        Permission::All,
    ]
}

/// Law: every catalogued permission's identifier resolves back to that
/// permission, and identifiers outside the catalog resolve to the sentinel.
pub proof fn lemma_permission_id_round_trip(p: Permission)
    requires
        p != Permission::Unknown,
    ensures
        permission_from_id(permission_id(p)) == p,
{
    reveal_strlit("users.read");
    reveal_strlit("users.write");
    reveal_strlit("users.delete");
    reveal_strlit("logs.read");
    reveal_strlit("system.read");
    reveal_strlit("*");
    assert("users.read"@.len() == 10);
    assert("users.write"@.len() == 11);
    assert("users.delete"@.len() == 12);
    assert("logs.read"@.len() == 9);
    assert("system.read"@.len() == 11);
    assert("*"@.len() == 1);
    assert("users.write"@[0] == 'u');
    assert("system.read"@[0] == 's');
    match p {
        Permission::UsersRead => {
            assert(permission_from_id("users.read"@) == Permission::UsersRead);
        },
        Permission::UsersWrite => {
            assert(permission_from_id("users.write"@) == Permission::UsersWrite);
        },
        Permission::UsersDelete => {
            assert(permission_from_id("users.delete"@) == Permission::UsersDelete);
        },
        Permission::LogsRead => {
            assert(permission_from_id("logs.read"@) == Permission::LogsRead);
        },
        Permission::SystemRead => {
            assert(permission_from_id("system.read"@) == Permission::SystemRead);
        },
        Permission::All => {
            assert(permission_from_id("*"@) == Permission::All);
        },
        Permission::Unknown => {
        },
    }
}

/// Law: the sentinel is never granted, whatever the set holds; and a set
/// holding the wildcard grants every catalogued permission.
pub proof fn lemma_grants_fail_closed_and_wildcard(set: Seq<Seq<char>>, p: Permission)
    ensures
        !set_grants(set, Permission::Unknown),
        set.contains("*"@) && p != Permission::Unknown ==> set_grants(set, p),
{
}

/// Read-only enumeration of the catalog for administrative introspection.
pub struct PermissionService;

impl PermissionService {
    /// Every catalogued permission, in catalog order.
    pub fn get_all_permissions() -> (r: Vec<Permission>)
        ensures
            r@ == catalog(),
    {
        let v = vec![
            Permission::UsersRead,
            Permission::UsersWrite,
            Permission::UsersDelete,
            Permission::LogsRead,
            Permission::SystemRead,
            Permission::All,
        ];
        proof {
            assert(v@ =~= catalog());
        }
        v
    }

    /// The category labels, in catalog order, without repetition.
    pub fn get_permission_categories() -> (r: Vec<String>)
        ensures
            r@.len() == 3,
            r@[0]@ == "Users"@,
            r@[1]@ == "Logs"@,
            r@[2]@ == "System"@,
    {
        let v = vec![
            String::from_str("Users"),
            String::from_str("Logs"),
            String::from_str("System"),
        ];
        v
    }

    /// Whether a permission set grants a permission: a literal match on the
    /// identifier, or the wildcard. The sentinel always fails.
    pub fn has_permission(set: &Vec<String>, p: &Permission) -> (r: bool)
        ensures
            r == set_grants(set.deep_view(), *p),
    {
        if let Permission::Unknown = p {
            return false;
        }
        let id = p.id_str();
        assert(*p != Permission::Unknown);
        let mut i: usize = 0;
        while i < set.len()
            invariant
                i <= set@.len(),
                *p != Permission::Unknown,
                id@ == permission_id(*p),
                forall|k: int|
                    0 <= k < i ==> set.deep_view()[k] != permission_id(*p)
                        && set.deep_view()[k] != "*"@,
        decreases set@.len() - i,
        {
            if str_eq(set[i].as_str(), id) {
                proof {
                    assert(set.deep_view()[i as int] == set@[i as int]@);
                    assert(set.deep_view().contains(permission_id(*p)));
                }
                return true;
            }
            if str_eq(set[i].as_str(), "*") {
                proof {
                    assert(set.deep_view()[i as int] == set@[i as int]@);
                    assert(set.deep_view().contains("*"@));
                }
                return true;
            }
            i = i + 1;
        }
        proof {
            if set.deep_view().contains(permission_id(*p)) {
                let k = choose|k: int|
                    0 <= k < set.deep_view().len() && set.deep_view()[k] == permission_id(*p);
                assert(false);
            }
            if set.deep_view().contains("*"@) {
                let k = choose|k: int|
                    0 <= k < set.deep_view().len() && set.deep_view()[k] == "*"@;
                assert(false);
            }
        }
        false
    }
}

/// The permissions attributed to one identity.
pub struct UserPermissionsResponse {
    pub user_id: String,
    pub permissions: Vec<String>,
    pub permission_count: usize,
}

impl UserPermissionsResponse {
    /// Shapes an identity's permission set for the wire: the id in its
    /// canonical text form, the set verbatim, and its size.
    pub fn of(user_id: u128, permissions: Vec<String>) -> (r: UserPermissionsResponse)
        ensures
            r.user_id@ == uuid_text_of(user_id),
            r.permissions.deep_view() == permissions.deep_view(),
            r.permission_count == permissions@.len(),
    {
        let permission_count = permissions.len();
        UserPermissionsResponse { user_id: uuid_text(user_id), permissions, permission_count }
    }
}

/// A request to check one permission identifier.
pub struct CheckPermissionRequest {
    pub permission: String,
}

/// The outcome of checking one permission identifier for one identity.
pub struct CheckPermissionResponse {
    pub user_id: String,
    pub permission: String,
    pub has_permission: bool,
    pub permission_description: String,
}

impl CheckPermissionResponse {
    /// Evaluates a requested permission identifier against an identity's
    /// permission set: the identifier is resolved against the catalog
    /// (unrecognized ones fail closed) and checked for a literal or
    /// wildcard grant.
    pub fn evaluate(user_id: u128, requested: String, set: &Vec<String>) -> (r:
        CheckPermissionResponse)
        ensures
            r.user_id@ == uuid_text_of(user_id),
            r.permission@ == requested@,
            r.has_permission == set_grants(set.deep_view(), permission_from_id(requested@)),
            r.permission_description@ == permission_description(permission_from_id(requested@)),
    {
        let p = Permission::from_string(requested.as_str());
        let has_permission = PermissionService::has_permission(set, &p);
        CheckPermissionResponse {
            user_id: uuid_text(user_id),
            permission: requested,
            has_permission,
            permission_description: String::from_str(p.description()),
        }
    }
}

/// One catalog entry as exposed to administrators.
pub struct PermissionInfo {
    pub name: String,
    pub description: String,
    pub category: String,
}

/// The whole catalog as exposed to administrators.
pub struct AvailablePermissionsResponse {
    pub permissions: Vec<PermissionInfo>,
    pub categories: Vec<String>,
    pub total_count: usize,
}

impl AvailablePermissionsResponse {
    /// Enumerates the catalog: one entry per permission with its
    /// identifier, description and category, the category labels, and the
    /// total count.
    pub fn build() -> (r: AvailablePermissionsResponse)
        ensures
            r.permissions@.len() == catalog().len(),
            forall|i: int|
                0 <= i < catalog().len() ==> (#[trigger] r.permissions@[i]).name@ == permission_id(
                    catalog()[i],
                ) && r.permissions@[i].description@ == permission_description(catalog()[i])
                    && r.permissions@[i].category@ == permission_category(catalog()[i]),
            r.categories@.len() == 3,
            r.total_count == catalog().len(),
    {
        let all = PermissionService::get_all_permissions();
        let mut permissions: Vec<PermissionInfo> = Vec::new();
        let mut i: usize = 0;
        while i < all.len()
            invariant
                all@ == catalog(),
                i <= all@.len(),
                permissions@.len() == i,
                forall|k: int|
                    0 <= k < i ==> (#[trigger] permissions@[k]).name@ == permission_id(
                        catalog()[k],
                    ) && permissions@[k].description@ == permission_description(catalog()[k])
                        && permissions@[k].category@ == permission_category(catalog()[k]),
            decreases all@.len() - i,
        {
            let p = all[i];
            permissions.push(
                PermissionInfo {
                    name: p.to_string(),
                    description: String::from_str(p.description()),
                    category: String::from_str(p.category()),
                },
            );
            i = i + 1;
        }
        let categories = PermissionService::get_permission_categories();
        let total_count = permissions.len();
        AvailablePermissionsResponse { permissions, categories, total_count }
    }
}

} // verus!
