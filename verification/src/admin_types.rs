//! Wire types of the administrative surface, and the pagination arithmetic
//! they share. A page or limit of zero is treated as one, so the math never
//! divides by zero and never underflows.
use vstd::prelude::*;

use crate::audit::AuditLogEntry;
use crate::ids::uuid_text;
use crate::ids::uuid_text_of;
use crate::timestamp::format_timestamp;
use crate::timestamp::rfc3339_of;
use crate::timestamp::MAX_RFC3339_SECONDS;
use crate::user::User;

verus! {

/// The page number queries start at.
pub fn default_page() -> (r: u64)
    ensures
        r == 1,
{
    1
}

/// The page size queries get when none is asked for.
pub fn default_limit() -> (r: u64)
    ensures
        r == 25,
{
    25
}

/// Admin login credentials.
pub struct AdminLoginRequest {
    pub email: String,
    pub password: String,
}

/// A successful admin login: the token and who it was issued to.
pub struct AdminLoginResponse {
    pub token: String,
    pub admin_id: String,
    pub email: String,
}

/// Where a page sits in the whole result set.
pub struct PaginationMeta {
    pub page: u64,
    pub limit: u64,
    pub total: u64,
    pub total_pages: u64,
}

/// One page of results with its placement.
pub struct PaginatedResponse<T> {
    pub data: Vec<T>,
    pub pagination: PaginationMeta,
}

/// Audit-log query: placement plus optional filters.
pub struct LogsQueryParams {
    pub page: u64,
    pub limit: u64,
    pub method: Option<String>,
    pub status_code: Option<i32>,
    pub user_id: Option<String>,
    pub start_date: Option<String>,
    pub end_date: Option<String>,
}

/// One audit record as exposed to administrators.
pub struct AuditLogResponse {
    pub id: String,
    pub timestamp: Option<String>,
    pub method: String,
    pub path: String,
    pub status_code: Option<i32>,
    pub response_time_ms: Option<i32>,
    pub user_id: Option<String>,
    pub ip_address: Option<String>,
    pub user_agent: Option<String>,
    pub request_body: Option<String>,
    pub response_body: Option<String>,
    pub error_message: Option<String>,
}

/// User-list query: placement plus optional filters.
pub struct UsersQueryParams {
    pub page: u64,
    pub limit: u64,
    pub search: Option<String>,
    pub is_admin: Option<bool>,
}

/// An administrative request to create an identity.
pub struct CreateUserRequest {
    pub email: String,
    pub password: String,
    pub is_admin: Option<bool>,
}

/// An administrative request to update an identity; absent fields stay.
pub struct UpdateUserRequest {
    pub email: Option<String>,
    pub password: Option<String>,
    pub is_admin: Option<bool>,
}

/// One identity as exposed to administrators; the password hash never is.
pub struct UserResponse {
    pub id: String,
    pub email: String,
    pub created_at: Option<String>,
    pub is_admin: Option<bool>,
}

/// One table of the underlying store, by name and size.
pub struct DatabaseTableResponse {
    pub name: String,
    pub record_count: u64,
}

/// Table-inspection query placement.
pub struct TableRecordsQueryParams {
    pub page: u64,
    pub limit: u64,
}

/// A table the store keeps for itself: its name wears one of the bookkeeping
/// prefixes. Such tables are hidden from table inspection.
pub open spec fn system_table_name(name: Seq<char>) -> bool {
    ||| crate::text::starts_with(name, "sqlite_"@)
    ||| crate::text::starts_with(name, "_sqlx_"@)
    ||| crate::text::starts_with(name, "seaql_"@)
}

/// Whether a table name belongs to the store's own bookkeeping.
pub fn is_system_table(name: &str) -> (b: bool)
    ensures
        b == system_table_name(name@),
{
    crate::text::str_starts_with(name, "sqlite_") || crate::text::str_starts_with(name, "_sqlx_")
        || crate::text::str_starts_with(name, "seaql_")
}

/// A zero page or limit is treated as one.
pub open spec fn effective_page(page: u64) -> int {
    if page == 0 {
        1
    } else {
        page as int
    }
}

/// A zero page or limit is treated as one.
pub open spec fn effective_limit(limit: u64) -> int {
    if limit == 0 {
        1
    } else {
        limit as int
    }
}

/// Where a page's slice starts in a result set of the given length.
pub open spec fn page_start(len: int, page: u64, limit: u64) -> int {
    let off = (effective_page(page) - 1) * effective_limit(limit);
    if off >= len {
        len
    } else {
        off
    }
}

/// Where a page's slice ends in a result set of the given length.
pub open spec fn page_end(len: int, page: u64, limit: u64) -> int {
    let e = (effective_page(page) - 1) * effective_limit(limit) + effective_limit(limit);
    if e >= len {
        len
    } else {
        e
    }
}

/// The slice of a result set that one page shows.
pub open spec fn page_slice<T>(s: Seq<T>, page: u64, limit: u64) -> Seq<T> {
    s.subrange(page_start(s.len() as int, page, limit), page_end(s.len() as int, page, limit))
}

/// How many pages a result set spans: the total divided by the page size,
/// rounded up; an empty set spans none.
pub open spec fn pages_of(total: int, limit: u64) -> int {
    (total + effective_limit(limit) - 1) / effective_limit(limit)
}

/// The start and end of a page's slice, clamped to the set's length.
pub fn page_bounds(len: usize, page: u64, limit: u64) -> (r: (usize, usize))
    ensures
        r.0 as int == page_start(len as int, page, limit),
        r.1 as int == page_end(len as int, page, limit),
        r.0 <= r.1 <= len,
{
    let l: u128 = if limit == 0 {
        1
    } else {
        limit as u128
    };
    let p: u128 = if page == 0 {
        1
    } else {
        page as u128
    };
    proof {
        assert((p - 1) * l <= u128::MAX) by (nonlinear_arith)
            requires
                p - 1 <= u64::MAX,
                l <= u64::MAX,
        ;
    }
    let off: u128 = (p - 1) * l;
    proof {
        assert(off == (effective_page(page) - 1) * effective_limit(limit));
    }
    if off >= len as u128 {
        (len, len)
    } else {
        let start = off as usize;
        let e = off + l;
        let end = if e >= len as u128 {
            len
        } else {
            e as usize
        };
        (start, end)
    }
}

/// The number of pages, computed without overflow.
pub fn total_pages(total: u64, limit: u64) -> (r: u64)
    ensures
        r as int == pages_of(total as int, limit),
{
    let l: u128 = if limit == 0 {
        1
    } else {
        limit as u128
    };
    let n = (total as u128 + l - 1) / l;
    proof {
        let t = total as int;
        let li = l as int;
        assert((t + li - 1) / li <= t) by (nonlinear_arith)
            requires
                li >= 1,
                t >= 0,
        ;
        assert(n as int == (t + li - 1) / li);
    }
    n as u64
}

/// Copies an optional string.
pub fn clone_opt_string(o: &Option<String>) -> (r: Option<String>)
    ensures
        (match o {
            Some(s) => r matches Some(t) && t@ == s@,
            None => r is None,
        }),
{
    match o {
        Some(s) => Some(s.clone()),
        None => None,
    }
}

/// Clamps a millisecond count into the wire type's range.
pub fn ms_as_i32(ms: u64) -> (r: i32)
    ensures
        ms <= i32::MAX ==> r == ms as i32,
        ms > i32::MAX ==> r == i32::MAX,
{
    if ms > 0x7fff_ffff {
        i32::MAX
    } else {
        ms as i32
    }
}

/// The wire form mirrors the stored record field for field: ids and the
/// actor in canonical text form, the timestamp in RFC 3339, the millisecond
/// count clamped into range, and the texts verbatim.
pub open spec fn audit_response_matches(r: AuditLogResponse, e: AuditLogEntry) -> bool {
    &&& r.id@ == uuid_text_of(e.id)
    &&& (e.timestamp <= MAX_RFC3339_SECONDS ==> (r.timestamp matches Some(s) && s@ == rfc3339_of(
        e.timestamp,
    )))
    &&& r.method@ == e.method@
    &&& r.path@ == e.path@
    &&& r.status_code == Some(e.status_code as i32)
    &&& (e.response_time_ms <= i32::MAX ==> r.response_time_ms == Some(e.response_time_ms as i32))
    &&& (match e.user_id {
        Some(id) => r.user_id matches Some(s) && s@ == uuid_text_of(id),
        None => r.user_id is None,
    })
    &&& (match e.ip_address {
        Some(ip) => r.ip_address matches Some(s) && s@ == ip@,
        None => r.ip_address is None,
    })
    &&& (match e.user_agent {
        Some(ua) => r.user_agent matches Some(s) && s@ == ua@,
        None => r.user_agent is None,
    })
    &&& (match e.request_body {
        Some(b) => r.request_body matches Some(s) && s@ == b@,
        None => r.request_body is None,
    })
    &&& (match e.response_body {
        Some(b) => r.response_body matches Some(s) && s@ == b@,
        None => r.response_body is None,
    })
    &&& (match e.error_message {
        Some(m) => r.error_message matches Some(s) && s@ == m@,
        None => r.error_message is None,
    })
}

impl AuditLogResponse {
    /// Shapes one stored audit record for the wire.
    pub fn of(e: &AuditLogEntry) -> (r: AuditLogResponse)
        ensures
            audit_response_matches(r, *e),
    {
        let user_id = match &e.user_id {
            Some(id) => Some(uuid_text(*id)),
            None => None,
        };
        AuditLogResponse {
            id: uuid_text(e.id),
            timestamp: format_timestamp(Some(e.timestamp)),
            method: e.method.clone(),
            path: e.path.clone(),
            status_code: Some(e.status_code as i32),
            response_time_ms: Some(ms_as_i32(e.response_time_ms)),
            user_id,
            ip_address: clone_opt_string(&e.ip_address),
            user_agent: clone_opt_string(&e.user_agent),
            request_body: clone_opt_string(&e.request_body),
            response_body: clone_opt_string(&e.response_body),
            error_message: clone_opt_string(&e.error_message),
        }
    }
}

/// The wire form of one identity: id in canonical text form, the email, the
/// creation time in RFC 3339, and whether its role makes it an admin. The
/// password hash is never exposed.
pub open spec fn user_response_matches(r: UserResponse, u: User, admin: bool) -> bool {
    &&& r.id@ == uuid_text_of(u.id)
    &&& r.email@ == u.email@
    &&& (match u.created_at {
        Some(t) => t <= MAX_RFC3339_SECONDS ==> (r.created_at matches Some(s) && s@ == rfc3339_of(
            t,
        )),
        None => r.created_at is None,
    })
    &&& r.is_admin == Some(admin)
}

impl UserResponse {
    /// Shapes one stored identity for the wire.
    pub fn of(u: &User, admin: bool) -> (r: UserResponse)
        ensures
            user_response_matches(r, *u, admin),
    {
        UserResponse {
            id: uuid_text(u.id),
            email: u.email.clone(),
            created_at: format_timestamp(u.created_at),
            is_admin: Some(admin),
        }
    }
}

} // verus!
