//! Administrative operations: admin login, user management, and the audit
//! trail's read side. Admin status is role-based: an identity is an admin
//! exactly when its role's permission set holds the wildcard. Listings are
//! filtered and paginated over the directory, in stored order.
use vstd::prelude::*;

use crate::admin_types::audit_response_matches;
use crate::admin_types::page_bounds;
use crate::admin_types::page_slice;
use crate::admin_types::pages_of;
use crate::admin_types::total_pages;
use crate::admin_types::user_response_matches;
use crate::admin_types::AdminLoginRequest;
use crate::admin_types::AdminLoginResponse;
use crate::admin_types::AuditLogResponse;
use crate::admin_types::CreateUserRequest;
use crate::admin_types::LogsQueryParams;
use crate::admin_types::PaginatedResponse;
use crate::admin_types::PaginationMeta;
use crate::admin_types::UpdateUserRequest;
use crate::admin_types::UserResponse;
use crate::admin_types::UsersQueryParams;
use crate::audit::AuditLogEntry;
use crate::credential::parseable_hash;
use crate::credential::password_matches;
use crate::directory::has_email;
use crate::directory::has_user_id;
use crate::directory::keeps;
use crate::directory::Directory;
use crate::directory::Role;
use crate::errors::AppError;
use crate::errors::STATUS_BAD_REQUEST;
use crate::errors::STATUS_CONFLICT;
use crate::errors::STATUS_FORBIDDEN;
use crate::errors::STATUS_INTERNAL;
use crate::errors::STATUS_NOT_FOUND;
use crate::errors::STATUS_UNAUTHORIZED;
use crate::ids::parse_uuid_text;
use crate::ids::uuid_text;
use crate::ids::uuid_text_of;
use crate::text::chars_of;
use crate::text::contains_pattern;
use crate::text::contains_sub;
use crate::text::str_eq;
use crate::timestamp::parse_rfc3339;
use crate::timestamp::rfc3339_value_of;
use crate::token::claims_of;
use crate::token::TokenService;
use crate::token::TOKEN_TTL_SECONDS;
use crate::user::validate_login_input;
use crate::user::User;
use crate::user_service::UserService;

verus! {

/// An identity is an admin exactly when it has a role whose permission set
/// holds the wildcard.
pub open spec fn user_is_admin(roles: Seq<Role>, u: User) -> bool {
    match u.role_id {
        Some(rid) => exists|i: int|
            0 <= i < roles.len() && (#[trigger] roles[i]).id == rid
                && roles[i].permissions.deep_view().contains("*"@),
        None => false,
    }
}

/// Whether an identity's role makes it an admin.
pub fn is_admin_user(dir: &Directory, u: &User) -> (b: bool)
    requires
        dir.wf(),
    ensures
        b == user_is_admin(dir.roles@, *u),
{
    let rid = match u.role_id {
        Some(rid) => rid,
        None => {
            return false;
        },
    };
    match dir.find_role_by_id(rid) {
        None => false,
        Some(role) => {
            let b = crate::permissions::PermissionService::has_permission(
                &role.permissions,
                &crate::permissions::Permission::All,
            );
            proof {
                let i = choose|i: int|
                    0 <= i < dir.roles@.len() && dir.roles@[i].id == rid
                        && role.permissions.deep_view() == dir.roles@[i].permissions.deep_view()
                        && role.name@ == dir.roles@[i].name@;
                if !b {
                    if user_is_admin(dir.roles@, *u) {
                        let j = choose|j: int|
                            0 <= j < dir.roles@.len() && (#[trigger] dir.roles@[j]).id == rid
                                && dir.roles@[j].permissions.deep_view().contains("*"@);
                        if i < j {
                            assert(dir.roles@[i].id != dir.roles@[j].id);
                        } else if j < i {
                            assert(dir.roles@[j].id != dir.roles@[i].id);
                        }
                    }
                }
            }
            b
        },
    }
}

/// The audit-log filters after the wire values are resolved: the user id
/// parsed from its text form, the date bounds parsed from RFC 3339; a
/// filter whose value does not parse is dropped, as is one not given.
pub struct LogFilters {
    pub method: Option<String>,
    pub status_code: Option<i32>,
    pub user_id: Option<u128>,
    pub start: Option<i64>,
    pub end: Option<i64>,
}

/// One audit record passes the resolved filters.
pub open spec fn log_matches(e: AuditLogEntry, f: LogFilters) -> bool {
    &&& (match f.method {
        Some(m) => e.method@ == m@,
        None => true,
    })
    &&& (match f.status_code {
        Some(sc) => e.status_code as int == sc as int,
        None => true,
    })
    &&& (match f.user_id {
        Some(uid) => e.user_id == Some(uid),
        None => true,
    })
    &&& (match f.start {
        Some(st) => e.timestamp as int >= st as int,
        None => true,
    })
    &&& (match f.end {
        Some(en) => e.timestamp as int <= en as int,
        None => true,
    })
}

/// The filter predicate over stored records.
pub open spec fn log_pred(f: LogFilters) -> spec_fn(AuditLogEntry) -> bool {
    |e: AuditLogEntry| log_matches(e, f)
}

fn matches_log(e: &AuditLogEntry, f: &LogFilters) -> (b: bool)
    ensures
        b == log_matches(*e, *f),
{
    let method_ok = match &f.method {
        Some(m) => str_eq(e.method.as_str(), m.as_str()),
        None => true,
    };
    let status_ok = match f.status_code {
        Some(sc) => e.status_code as i32 == sc,
        None => true,
    };
    let user_ok = match f.user_id {
        Some(uid) => match e.user_id {
            Some(x) => x == uid,
            None => false,
        },
        None => true,
    };
    let start_ok = match f.start {
        Some(st) => e.timestamp as i128 >= st as i128,
        None => true,
    };
    let end_ok = match f.end {
        Some(en) => e.timestamp as i128 <= en as i128,
        None => true,
    };
    method_ok && status_ok && user_ok && start_ok && end_ok
}

/// Resolves the wire filters: the method and status are taken as given, the
/// user id must be a canonical id text, and the date bounds must be RFC
/// 3339; an unparseable value drops its filter rather than rejecting the
/// query.
pub fn resolve_log_filters(params: &LogsQueryParams) -> (f: LogFilters)
    ensures
        (match params.method {
            Some(m) => f.method matches Some(x) && x@ == m@,
            None => f.method is None,
        }),
        f.status_code == params.status_code,
        (match params.user_id {
            Some(s) => forall|id: u128| s@ == uuid_text_of(id) ==> f.user_id == Some(id),
            None => f.user_id is None,
        }),
        (match params.start_date {
            Some(s) => f.start == rfc3339_value_of(s@),
            None => f.start is None,
        }),
        (match params.end_date {
            Some(s) => f.end == rfc3339_value_of(s@),
            None => f.end is None,
        }),
{
    let method = crate::admin_types::clone_opt_string(&params.method);
    let user_id = match &params.user_id {
        Some(s) => parse_uuid_text(s.as_str()),
        None => None,
    };
    let start = match &params.start_date {
        Some(s) => parse_rfc3339(s.as_str()),
        None => None,
    };
    let end = match &params.end_date {
        Some(s) => parse_rfc3339(s.as_str()),
        None => None,
    };
    LogFilters { method, status_code: params.status_code, user_id, start, end }
}

/// One identity passes the user-list filters: an email-substring search and
/// an admin flag.
pub open spec fn user_matches(
    roles: Seq<Role>,
    u: User,
    search: Option<String>,
    admin: Option<bool>,
) -> bool {
    &&& (match search {
        Some(s) => contains_pattern(u.email@, s@),
        None => true,
    })
    &&& (match admin {
        Some(b) => user_is_admin(roles, u) == b,
        None => true,
    })
}

/// The filter predicate over stored identities.
pub open spec fn user_pred(roles: Seq<Role>, search: Option<String>, admin: Option<bool>) -> spec_fn(
    User,
) -> bool {
    |u: User| user_matches(roles, u, search, admin)
}

/// Administrative business operations.
pub struct AdminService;

impl AdminService {
    /// Authenticates an admin login: empty fields are 400, an unknown email
    /// is 401, a known identity without the admin role is 403 before any
    /// password work, a wrong password is 401 with the same message as an
    /// unknown email, a corrupt stored hash is the one internal failure,
    /// and an admin with a matching password always gets a token good for
    /// 24 hours from `now`.
    pub fn authenticate_admin(
        dir: &Directory,
        login: AdminLoginRequest,
        svc: &TokenService,
        now: u64,
    ) -> (r: Result<AdminLoginResponse, AppError>)
        requires
            dir.wf(),
            now + TOKEN_TTL_SECONDS <= u64::MAX,
        ensures
            r matches Err(e) ==> (e.status_code == STATUS_BAD_REQUEST || e.status_code
                == STATUS_UNAUTHORIZED || e.status_code == STATUS_FORBIDDEN || e.status_code
                == STATUS_INTERNAL),
            (login.email@.len() == 0 || login.password@.len() == 0) ==> (r matches Err(e)
                && e.status_code == STATUS_BAD_REQUEST),
            (login.email@.len() > 0 && login.password@.len() > 0 && !has_email(
                dir.users@,
                login.email@,
            )) ==> (r matches Err(e) && e.status_code == STATUS_UNAUTHORIZED && e.message@
                == "Invalid credentials"@),
            (login.email@.len() > 0 && login.password@.len() > 0 && exists|i: int|
                0 <= i < dir.users@.len() && (#[trigger] dir.users@[i]).email@ == login.email@
                    && !user_is_admin(dir.roles@, dir.users@[i])) ==> (r matches Err(e)
                && e.status_code == STATUS_FORBIDDEN),
            (login.email@.len() > 0 && login.password@.len() > 0 && exists|i: int|
                0 <= i < dir.users@.len() && (#[trigger] dir.users@[i]).email@ == login.email@
                    && user_is_admin(dir.roles@, dir.users@[i]) && !parseable_hash(
                    dir.users@[i].password_hash@,
                )) ==> (r matches Err(e) && e.status_code == STATUS_INTERNAL),
            (login.email@.len() > 0 && login.password@.len() > 0 && exists|i: int|
                0 <= i < dir.users@.len() && (#[trigger] dir.users@[i]).email@ == login.email@
                    && user_is_admin(dir.roles@, dir.users@[i]) && parseable_hash(
                    dir.users@[i].password_hash@,
                ) && !password_matches(login.password@, dir.users@[i].password_hash@)) ==> (
            r matches Err(e) && e.status_code == STATUS_UNAUTHORIZED && e.message@
                == "Invalid credentials"@),
            (login.email@.len() > 0 && login.password@.len() > 0 && exists|i: int|
                0 <= i < dir.users@.len() && (#[trigger] dir.users@[i]).email@ == login.email@
                    && user_is_admin(dir.roles@, dir.users@[i]) && parseable_hash(
                    dir.users@[i].password_hash@,
                ) && password_matches(login.password@, dir.users@[i].password_hash@)) ==> r is Ok,
            r matches Ok(resp) ==> exists|i: int|
                {
                    &&& 0 <= i < dir.users@.len()
                    &&& (#[trigger] dir.users@[i]).email@ == login.email@
                    &&& user_is_admin(dir.roles@, dir.users@[i])
                    &&& password_matches(login.password@, dir.users@[i].password_hash@)
                    &&& claims_of(resp.token@, svc.secret()) == Some(
                        (uuid_text_of(dir.users@[i].id), (now + TOKEN_TTL_SECONDS) as u64),
                    )
                    &&& resp.admin_id@ == uuid_text_of(dir.users@[i].id)
                    &&& resp.email@ == dir.users@[i].email@
                },
    {
        if let Err(e) = validate_login_input(&login.email, &login.password) {
            return Err(e);
        }
        let user = match UserService::find_user_by_email(dir, login.email.as_str()) {
            Some(u) => u,
            None => {
                return Err(
                    AppError {
                        message: String::from_str("Invalid credentials"),
                        status_code: STATUS_UNAUTHORIZED,
                    },
                );
            },
        };
        let ghost uidx = choose|i: int|
            0 <= i < dir.users@.len() && dir.users@[i] == user && user.email@ == login.email@;
        proof {
            assert forall|i: int|
                0 <= i < dir.users@.len() && (#[trigger] dir.users@[i]).email@ == login.email@
                implies dir.users@[i] == user by {
                if i < uidx {
                    assert(dir.users@[i].email@ != dir.users@[uidx].email@);
                } else if uidx < i {
                    assert(dir.users@[uidx].email@ != dir.users@[i].email@);
                }
            }
        }
        if !is_admin_user(dir, &user) {
            return Err(
                AppError {
                    message: String::from_str("Access denied: Admin privileges required"),
                    status_code: STATUS_FORBIDDEN,
                },
            );
        }
        match UserService::verify_password(&user, login.password.as_str()) {
            Err(e) => {
                return Err(e);
            },
            Ok(false) => {
                return Err(
                    AppError {
                        message: String::from_str("Invalid credentials"),
                        status_code: STATUS_UNAUTHORIZED,
                    },
                );
            },
            Ok(true) => {},
        }
        let token = svc.issue(user.id, now);
        Ok(AdminLoginResponse { token, admin_id: uuid_text(user.id), email: user.email })
    }

    /// One page of the audit trail under the resolved filters, newest
    /// first: records are appended as requests finish, so the pages run
    /// over the reversed filtered trail, shaped for the wire, with the
    /// placement over the filtered total.
    pub fn get_audit_logs(dir: &Directory, f: &LogFilters, page: u64, limit: u64) -> (r:
        PaginatedResponse<AuditLogResponse>)
        ensures
            r.pagination.page == page,
            r.pagination.limit == limit,
            r.pagination.total == dir.audit_logs@.filter(log_pred(*f)).len(),
            r.pagination.total_pages as int == pages_of(
                dir.audit_logs@.filter(log_pred(*f)).len() as int,
                limit,
            ),
            r.data@.len() == page_slice(
                dir.audit_logs@.filter(log_pred(*f)).reverse(),
                page,
                limit,
            ).len(),
            forall|i: int|
                0 <= i < r.data@.len() ==> audit_response_matches(
                    #[trigger] r.data@[i],
                    page_slice(dir.audit_logs@.filter(log_pred(*f)).reverse(), page, limit)[i],
                ),
    {
        let ghost pred = log_pred(*f);
        let logs = &dir.audit_logs;
        let n = logs.len();
        let mut matched: Vec<AuditLogEntry> = Vec::new();
        let mut i: usize = 0;
        proof {
            reveal_with_fuel(Seq::filter, 3);
            assert(logs@.take(0) =~= Seq::<AuditLogEntry>::empty());
            assert(Seq::<AuditLogEntry>::empty().filter(pred) =~= Seq::<AuditLogEntry>::empty());
        }
        while i < n
            invariant
                n == logs@.len(),
                i <= n,
                pred == log_pred(*f),
                matched@ == logs@.take(i as int).filter(pred),
            decreases n - i,
        {
            let ghost prefix = logs@.take(i as int);
            proof {
                reveal_with_fuel(Seq::filter, 3);
                assert(logs@.take(i + 1) =~= prefix + seq![logs@[i as int]]);
                Seq::filter_distributes_over_add(prefix, seq![logs@[i as int]], pred);
                assert(seq![logs@[i as int]].drop_last() =~= Seq::<AuditLogEntry>::empty());
                if log_matches(logs@[i as int], *f) {
                    assert(seq![logs@[i as int]].filter(pred) =~= seq![logs@[i as int]]);
                } else {
                    assert(seq![logs@[i as int]].filter(pred) =~= Seq::<AuditLogEntry>::empty());
                }
            }
            if matches_log(&logs[i], f) {
                matched.push(logs[i].duplicate());
            }
            proof {
                assert(matched@ =~= logs@.take(i + 1).filter(pred));
            }
            i = i + 1;
        }
        proof {
            assert(logs@.take(n as int) =~= logs@);
        }
        let total = matched.len();
        let mut newest_first: Vec<AuditLogEntry> = Vec::new();
        let mut k: usize = total;
        while k > 0
            invariant
                total == matched@.len(),
                k <= total,
                newest_first@.len() == total - k,
                forall|i: int|
                    0 <= i < newest_first@.len() ==> #[trigger] newest_first@[i] == matched@[total
                        - 1 - i],
            decreases k,
        {
            k = k - 1;
            newest_first.push(matched[k].duplicate());
        }
        proof {
            assert(newest_first@ =~= matched@.reverse());
        }
        let (start, end) = page_bounds(total, page, limit);
        let mut data: Vec<AuditLogResponse> = Vec::new();
        let mut j: usize = start;
        while j < end
            invariant
                start <= j <= end <= newest_first@.len(),
                data@.len() == j - start,
                forall|k2: int|
                    0 <= k2 < data@.len() ==> audit_response_matches(
                        #[trigger] data@[k2],
                        newest_first@[start + k2],
                    ),
            decreases end - j,
        {
            data.push(AuditLogResponse::of(&newest_first[j]));
            j = j + 1;
        }
        proof {
            assert(page_slice(matched@.reverse(), page, limit) =~= newest_first@.subrange(
                start as int,
                end as int,
            ));
        }
        let pagination = PaginationMeta {
            page,
            limit,
            total: total as u64,
            total_pages: total_pages(total as u64, limit),
        };
        PaginatedResponse { data, pagination }
    }

    /// One page of the identities under the user-list filters, newest
    /// first (identities are appended at creation, so the pages run over
    /// the reversed filtered list): each shaped for the wire with its admin
    /// flag resolved from its role.
    pub fn get_users(dir: &Directory, params: &UsersQueryParams) -> (r: PaginatedResponse<
        UserResponse,
    >)
        requires
            dir.wf(),
        ensures
            r.pagination.page == params.page,
            r.pagination.limit == params.limit,
            r.pagination.total == dir.users@.filter(
                user_pred(dir.roles@, params.search, params.is_admin),
            ).len(),
            r.pagination.total_pages as int == pages_of(
                dir.users@.filter(user_pred(dir.roles@, params.search, params.is_admin)).len() as int,
                params.limit,
            ),
            r.data@.len() == page_slice(
                dir.users@.filter(user_pred(dir.roles@, params.search, params.is_admin)).reverse(),
                params.page,
                params.limit,
            ).len(),
            forall|i: int|
                0 <= i < r.data@.len() ==> user_response_matches(
                    #[trigger] r.data@[i],
                    page_slice(
                        dir.users@.filter(
                            user_pred(dir.roles@, params.search, params.is_admin),
                        ).reverse(),
                        params.page,
                        params.limit,
                    )[i],
                    user_is_admin(
                        dir.roles@,
                        page_slice(
                            dir.users@.filter(
                                user_pred(dir.roles@, params.search, params.is_admin),
                            ).reverse(),
                            params.page,
                            params.limit,
                        )[i],
                    ),
                ),
    {
        let ghost pred = user_pred(dir.roles@, params.search, params.is_admin);
        let users = &dir.users;
        let n = users.len();
        let mut matched: Vec<User> = Vec::new();
        let mut i: usize = 0;
        proof {
            reveal_with_fuel(Seq::filter, 3);
            assert(users@.take(0) =~= Seq::<User>::empty());
            assert(Seq::<User>::empty().filter(pred) =~= Seq::<User>::empty());
        }
        while i < n
            invariant
                dir.wf(),
                users == dir.users,
                n == users@.len(),
                i <= n,
                pred == user_pred(dir.roles@, params.search, params.is_admin),
                matched@ == users@.take(i as int).filter(pred),
            decreases n - i,
        {
            let ghost prefix = users@.take(i as int);
            proof {
                reveal_with_fuel(Seq::filter, 3);
                assert(users@.take(i + 1) =~= prefix + seq![users@[i as int]]);
                Seq::filter_distributes_over_add(prefix, seq![users@[i as int]], pred);
                assert(seq![users@[i as int]].drop_last() =~= Seq::<User>::empty());
                if user_matches(dir.roles@, users@[i as int], params.search, params.is_admin) {
                    assert(seq![users@[i as int]].filter(pred) =~= seq![users@[i as int]]);
                } else {
                    assert(seq![users@[i as int]].filter(pred) =~= Seq::<User>::empty());
                }
            }
            let search_ok = match &params.search {
                Some(s) => {
                    let email_chars = chars_of(users[i].email.as_str());
                    let search_chars = chars_of(s.as_str());
                    contains_sub(&email_chars, &search_chars)
                },
                None => true,
            };
            let admin_ok = match params.is_admin {
                Some(b) => is_admin_user(dir, &users[i]) == b,
                None => true,
            };
            if search_ok && admin_ok {
                matched.push(users[i].duplicate());
            }
            proof {
                assert(matched@ =~= users@.take(i + 1).filter(pred));
            }
            i = i + 1;
        }
        proof {
            assert(users@.take(n as int) =~= users@);
        }
        let total = matched.len();
        let mut newest_first: Vec<User> = Vec::new();
        let mut k: usize = total;
        while k > 0
            invariant
                total == matched@.len(),
                k <= total,
                newest_first@.len() == total - k,
                forall|i: int|
                    0 <= i < newest_first@.len() ==> #[trigger] newest_first@[i] == matched@[total
                        - 1 - i],
            decreases k,
        {
            k = k - 1;
            newest_first.push(matched[k].duplicate());
        }
        proof {
            assert(newest_first@ =~= matched@.reverse());
        }
        let (start, end) = page_bounds(total, params.page, params.limit);
        let mut data: Vec<UserResponse> = Vec::new();
        let mut j: usize = start;
        while j < end
            invariant
                dir.wf(),
                start <= j <= end <= newest_first@.len(),
                data@.len() == j - start,
                forall|k2: int|
                    0 <= k2 < data@.len() ==> user_response_matches(
                        #[trigger] data@[k2],
                        newest_first@[start + k2],
                        user_is_admin(dir.roles@, newest_first@[start + k2]),
                    ),
            decreases end - j,
        {
            let admin = is_admin_user(dir, &newest_first[j]);
            data.push(UserResponse::of(&newest_first[j], admin));
            j = j + 1;
        }
        proof {
            assert(page_slice(matched@.reverse(), params.page, params.limit)
                =~= newest_first@.subrange(start as int, end as int));
        }
        let pagination = PaginationMeta {
            page: params.page,
            limit: params.limit,
            total: total as u64,
            total_pages: total_pages(total as u64, params.limit),
        };
        PaginatedResponse { data, pagination }
    }

    /// One identity by id, shaped for the wire: 404 exactly when the id is
    /// unknown.
    pub fn get_user(dir: &Directory, user_id: u128) -> (r: Result<UserResponse, AppError>)
        requires
            dir.wf(),
        ensures
            r is Ok <==> has_user_id(dir.users@, user_id),
            r matches Ok(resp) ==> exists|i: int|
                {
                    &&& 0 <= i < dir.users@.len()
                    &&& (#[trigger] dir.users@[i]).id == user_id
                    &&& user_response_matches(
                        resp,
                        dir.users@[i],
                        user_is_admin(dir.roles@, dir.users@[i]),
                    )
                },
            r matches Err(e) ==> e.status_code == STATUS_NOT_FOUND && e.message@
                == "User not found"@,
    {
        match UserService::find_user_by_id(dir, user_id) {
            Some(u) => {
                let admin = is_admin_user(dir, &u);
                Ok(UserResponse::of(&u, admin))
            },
            None => Err(
                AppError {
                    message: String::from_str("User not found"),
                    status_code: STATUS_NOT_FOUND,
                },
            ),
        }
    }

    /// Creates an identity administratively: under the admin role when the
    /// request asks for an admin and such a role is configured, with no
    /// role otherwise. Validation, conflict and crypto failures map as in
    /// registration; the response carries the requested admin flag.
    pub fn create_user(
        dir: &mut Directory,
        request: CreateUserRequest,
        admin_role_id: Option<u64>,
        now: u64,
    ) -> (r: Result<UserResponse, AppError>)
        requires
            old(dir).wf(),
        ensures
            final(dir).wf(),
            final(dir).roles@ == old(dir).roles@,
            final(dir).audit_logs@ == old(dir).audit_logs@,
            r matches Err(e) ==> final(dir).users@ == old(dir).users@ && (e.status_code
                == STATUS_BAD_REQUEST || e.status_code == STATUS_CONFLICT || e.status_code
                == STATUS_INTERNAL),
            (r matches Err(e) && e.status_code == STATUS_BAD_REQUEST)
                ==> !crate::user_service::registration_valid(request.email@, request.password@),
            r matches Err(e) ==> (e.status_code == STATUS_CONFLICT ==> e.message@
                == "User already exists"@),
            r matches Ok(resp) ==> exists|u: User|
                {
                    &&& final(dir).users@ == old(dir).users@.push(u)
                    &&& u.email@ == request.email@
                    &&& password_matches(request.password@, u.password_hash@)
                    &&& u.created_at == Some(now)
                    &&& u.role_id == (if request.is_admin == Some(true) {
                        admin_role_id
                    } else {
                        None
                    })
                    &&& resp.id@ == uuid_text_of(u.id)
                    &&& resp.email@ == u.email@
                    &&& resp.is_admin == Some(request.is_admin == Some(true))
                },
    {
        let wants_admin = match request.is_admin {
            Some(true) => true,
            _ => false,
        };
        let role_id = if wants_admin {
            admin_role_id
        } else {
            None
        };
        let user = match UserService::create_user_with_role(
            dir,
            request.email,
            request.password,
            role_id,
            now,
        ) {
            Ok(u) => u,
            Err(e) => {
                return Err(e);
            },
        };
        let resp = UserResponse::of(&user, wants_admin);
        Ok(resp)
    }

    /// Updates an identity administratively: each given field replaces the
    /// stored one, and the admin flag moves the identity onto or off the
    /// admin role. The response reflects the stored row after the update.
    pub fn update_user(
        dir: &mut Directory,
        user_id: u128,
        request: UpdateUserRequest,
        admin_role_id: Option<u64>,
    ) -> (r: Result<UserResponse, AppError>)
        requires
            old(dir).wf(),
        ensures
            final(dir).wf(),
            final(dir).roles@ == old(dir).roles@,
            final(dir).audit_logs@ == old(dir).audit_logs@,
            r matches Err(e) ==> final(dir).users@ == old(dir).users@,
            !has_user_id(old(dir).users@, user_id) ==> (r matches Err(e) && e.status_code
                == STATUS_NOT_FOUND),
            (has_user_id(old(dir).users@, user_id) && (match request.email {
                Some(e) => crate::user::email_shape_ok(e@) && (exists|k: int|
                    0 <= k < old(dir).users@.len() && (#[trigger] old(dir).users@[k]).email@ == e@
                        && old(dir).users@[k].id != user_id),
                None => false,
            })) ==> (r matches Err(e2) && e2.status_code == STATUS_CONFLICT && e2.message@
                == "Email already taken"@),
            r matches Ok(resp) ==> exists|u: User, j: int|
                #![trigger old(dir).users@[j], user_response_matches(resp, u, user_is_admin(final(dir).roles@, u))]
                {
                    &&& 0 <= j < old(dir).users@.len()
                    &&& old(dir).users@[j].id == user_id
                    &&& u.id == user_id
                    &&& (match request.email {
                        Some(e) => u.email@ == e@,
                        None => u.email@ == old(dir).users@[j].email@,
                    })
                    &&& (match request.password {
                        Some(p) => password_matches(p@, u.password_hash@),
                        None => u.password_hash@ == old(dir).users@[j].password_hash@,
                    })
                    &&& (match request.is_admin {
                        Some(true) => u.role_id == admin_role_id,
                        Some(false) => u.role_id is None,
                        None => u.role_id == old(dir).users@[j].role_id,
                    })
                    &&& final(dir).users@.len() == old(dir).users@.len()
                    &&& (forall|i: int|
                        0 <= i < old(dir).users@.len() ==> final(dir).users@[i] == (if old(
                            dir,
                        ).users@[i].id == user_id {
                            u
                        } else {
                            old(dir).users@[i]
                        }))
                    &&& user_response_matches(resp, u, user_is_admin(final(dir).roles@, u))
                },
    {
        let role_change = match request.is_admin {
            None => None,
            Some(true) => Some(admin_role_id),
            Some(false) => Some(None),
        };
        let updated = match UserService::update_user(
            dir,
            user_id,
            request.email,
            request.password,
            role_change,
        ) {
            Ok(u) => u,
            Err(e) => {
                return Err(e);
            },
        };
        let admin = is_admin_user(dir, &updated);
        let resp = UserResponse::of(&updated, admin);
        proof {
            let j2 = choose|j: int|
                {
                    &&& 0 <= j < old(dir).users@.len()
                    &&& (#[trigger] old(dir).users@[j]).id == user_id
                    &&& updated.id == user_id
                    &&& (match request.email {
                        Some(e) => updated.email@ == e@,
                        None => updated.email@ == old(dir).users@[j].email@,
                    })
                    &&& (match request.password {
                        Some(p) => password_matches(p@, updated.password_hash@)
                            && parseable_hash(updated.password_hash@),
                        None => updated.password_hash@ == old(dir).users@[j].password_hash@,
                    })
                    &&& (match role_change {
                        Some(ro) => updated.role_id == ro,
                        None => updated.role_id == old(dir).users@[j].role_id,
                    })
                    &&& updated.created_at == old(dir).users@[j].created_at
                    &&& updated.last_login == old(dir).users@[j].last_login
                    &&& dir.users@.len() == old(dir).users@.len()
                    &&& (forall|i: int|
                        0 <= i < old(dir).users@.len() ==> dir.users@[i] == (if old(
                            dir,
                        ).users@[i].id == user_id {
                            updated
                        } else {
                            old(dir).users@[i]
                        }))
                };
            assert(old(dir).users@[j2].id == user_id);
            assert(user_response_matches(resp, updated, user_is_admin(dir.roles@, updated)));
        }
        Ok(resp)
    }

    /// Deletes an identity administratively. An admin can never delete its
    /// own account: that is rejected as malformed input before anything
    /// else, whatever else holds. Otherwise an unknown id is 404 and a
    /// known one is removed.
    pub fn delete_user(dir: &mut Directory, user_id: u128, current_admin_id: u128) -> (r: Result<
        (),
        AppError,
    >)
        requires
            old(dir).wf(),
        ensures
            final(dir).wf(),
            final(dir).roles@ == old(dir).roles@,
            final(dir).audit_logs@ == old(dir).audit_logs@,
            user_id == current_admin_id ==> (r matches Err(e) && e.status_code
                == STATUS_BAD_REQUEST && e.message@ == "Cannot delete your own account"@
                && final(dir).users@ == old(dir).users@),
            r is Ok <==> (user_id != current_admin_id && has_user_id(old(dir).users@, user_id)),
            r is Ok ==> final(dir).users@ == old(dir).users@.filter(keeps(user_id)),
            r matches Err(e) ==> final(dir).users@ == old(dir).users@ && (e.status_code
                == STATUS_BAD_REQUEST || e.status_code == STATUS_NOT_FOUND),
            r matches Err(e) ==> (user_id != current_admin_id ==> e.status_code
                == STATUS_NOT_FOUND && e.message@ == "User not found"@),
    {
        if user_id == current_admin_id {
            return Err(
                AppError {
                    message: String::from_str("Cannot delete your own account"),
                    status_code: STATUS_BAD_REQUEST,
                },
            );
        }
        UserService::delete_user(dir, user_id)
    }
}

} // verus!
