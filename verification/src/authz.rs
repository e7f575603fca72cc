//! Authorization middleware, as pure per-request decisions. The identity
//! stage reads the Authorization header, demands the exact `Bearer <token>`
//! shape, verifies the token and yields the caller's identity; any failure
//! is a 401 and the wrapped handler must not run. The privilege stage,
//! composed after it on admin routes, never re-derives the token: it takes
//! the identity the first stage attached, the role the directory resolved,
//! and the permission the route demands, and yields 403 unless the role's
//! set grants it. The transport acts only on these results, so a halted
//! request never reaches a handler.
use vstd::prelude::*;

use crate::errors::AppError;
use crate::errors::STATUS_FORBIDDEN;
use crate::errors::STATUS_UNAUTHORIZED;
use crate::ids::uuid_text_of;
use crate::ids::uuid_value_of;
use crate::permissions::set_grants;
use crate::permissions::Permission;
use crate::permissions::PermissionService;
use crate::directory::Role;
use crate::text::str_eq;
use crate::token::claims_of;
use crate::token::AuthError;
use crate::token::TokenService;

verus! {

broadcast use vstd::string::group_string_axioms;

/// The identity the identity stage attaches to a request.
#[derive(Clone, Copy, Debug, PartialEq, Eq, Structural)]
pub struct AuthUser {
    pub user_id: u128,
}

/// The context the privilege stage attaches for downstream handlers.
pub struct AdminUser {
    pub user_id: u128,
    pub email: String,
}

/// The token inside a header value of the exact shape `Bearer <token>`.
pub open spec fn bearer_token_of(header: Seq<char>) -> Option<Seq<char>> {
    if header.len() >= 7 && header.subrange(0, 7) == "Bearer "@ {
        Some(header.skip(7))
    } else {
        None
    }
}

/// Strips the exact `Bearer ` scheme off a header value; anything else is
/// malformed.
pub fn parse_bearer(header: &str) -> (r: Option<String>)
    ensures
        (match r {
            Some(t) => bearer_token_of(header@) == Some(t@),
            None => bearer_token_of(header@) is None,
        }),
{
    let n = header.unicode_len();
    if n < 7 {
        return None;
    }
    let head = header.substring_char(0, 7);
    if !str_eq(head, "Bearer ") {
        return None;
    }
    let tail = header.substring_char(7, n);
    proof {
        assert(tail@ =~= header@.skip(7));
    }
    Some(String::from_str(tail))
}

/// The message for each failure of the identity stage.
pub open spec fn auth_error_text(e: AuthError) -> Seq<char> {
    match e {
        AuthError::MissingHeader => "Missing Authorization header"@,
        AuthError::MalformedHeader => "Invalid Authorization header format"@,
        AuthError::InvalidToken => "Invalid token"@,
        AuthError::TokenExpired => "Token expired"@,
    }
}

/// Everything the identity stage promises of its result. A missing or
/// malformed header halts with 401 before any token work; the token is then
/// verified against the secret and the clock, and each failure halts with
/// 401 and its own message; a live, well-signed token proceeds exactly when
/// its subject parses as an id, carrying that id — in particular, the
/// canonical text of an id carries that id.
pub open spec fn identity_gate_contract(
    header: Option<Seq<char>>,
    secret: Seq<u8>,
    now: u64,
    r: Result<AuthUser, AppError>,
) -> bool {
    &&& (r matches Err(e) ==> e.status_code == STATUS_UNAUTHORIZED)
    &&& (match header {
        None => (r matches Err(e) && e.message@ == auth_error_text(AuthError::MissingHeader)),
        Some(h) => (match bearer_token_of(h) {
            None => (r matches Err(e) && e.message@ == auth_error_text(
                AuthError::MalformedHeader,
            )),
            Some(tok) => (match claims_of(tok, secret) {
                None => (r matches Err(e) && e.message@ == auth_error_text(
                    AuthError::InvalidToken,
                )),
                Some(c) => {
                    &&& ((c.1 <= now) <==> (r matches Err(e) && e.message@ == auth_error_text(
                        AuthError::TokenExpired,
                    )))
                    &&& (now < c.1 ==> (match uuid_value_of(c.0) {
                        Some(id) => r == Ok::<AuthUser, AppError>(AuthUser { user_id: id }),
                        None => (r matches Err(e) && e.message@ == auth_error_text(
                            AuthError::InvalidToken,
                        )),
                    }))
                    &&& (now < c.1 ==> (forall|id: u128|
                        c.0 == uuid_text_of(id) ==> r == Ok::<AuthUser, AppError>(
                            AuthUser { user_id: id },
                        )))
                    &&& (r matches Ok(u) ==> now < c.1)
                },
            }),
        }),
    })
}

/// The identity stage: applied to every protected route, before any
/// handler. Failures short-circuit with 401; the transport runs the wrapped
/// handler only on `Ok`.
pub fn identity_gate(header: Option<&String>, svc: &TokenService, now: u64) -> (r: Result<
    AuthUser,
    AppError,
>)
    ensures
        identity_gate_contract(
            match header {
                Some(h) => Some(h@),
                None => None,
            },
            svc.secret(),
            now,
            r,
        ),
{
    let h = match header {
        Some(h) => h,
        None => {
            return Err(
                AppError {
                    message: String::from_str("Missing Authorization header"),
                    status_code: STATUS_UNAUTHORIZED,
                },
            );
        },
    };
    let token = match parse_bearer(h.as_str()) {
        Some(t) => t,
        None => {
            return Err(
                AppError {
                    message: String::from_str("Invalid Authorization header format"),
                    status_code: STATUS_UNAUTHORIZED,
                },
            );
        },
    };
    let vr = svc.verify(token.as_str(), now);
    let ghost tok = token@;
    let ghost sec = svc.secret();
    let r: Result<AuthUser, AppError> = match vr {
        Ok(id) => Ok(AuthUser { user_id: id }),
        Err(AuthError::TokenExpired) => Err(
            AppError {
                message: String::from_str("Token expired"),
                status_code: STATUS_UNAUTHORIZED,
            },
        ),
        Err(_) => Err(
            AppError {
                message: String::from_str("Invalid token"),
                status_code: STATUS_UNAUTHORIZED,
            },
        ),
    };
    proof {
        reveal_strlit("Token expired");
        reveal_strlit("Invalid token");
        assert("Token expired"@.len() == 13);
        assert("Invalid token"@.len() == 13);
        assert("Token expired"@[0] == 'T');
        assert("Invalid token"@[0] == 'I');
        match claims_of(tok, sec) {
            None => {
                assert(vr == Err::<u128, AuthError>(AuthError::InvalidToken));
            },
            Some(c) => {
                if c.1 <= now {
                    assert(vr == Err::<u128, AuthError>(AuthError::TokenExpired));
                } else {
                    assert forall|id: u128| c.0 == uuid_text_of(id) implies r == Ok::<
                        AuthUser,
                        AppError,
                    >(AuthUser { user_id: id }) by {
                        assert(vr == Ok::<u128, AuthError>(id));
                    }
                    match uuid_value_of(c.0) {
                        Some(id) => {
                            assert(vr == Ok::<u128, AuthError>(id));
                        },
                        None => {
                            assert(vr == Err::<u128, AuthError>(AuthError::InvalidToken));
                        },
                    }
                }
            },
        }
    }
    r
}

/// Law: a request with no Authorization header always halts with 401 —
/// whatever the secret, the clock or anything else — so the wrapped handler
/// is never consulted. The hypothesis is what `identity_gate` ensures.
pub proof fn lemma_missing_header_always_unauthorized(
    secret: Seq<u8>,
    now: u64,
    r: Result<AuthUser, AppError>,
)
    requires
        identity_gate_contract(None, secret, now, r),
    ensures
        r matches Err(e) && e.status_code == STATUS_UNAUTHORIZED,
{
}

/// Everything the privilege stage promises of its result: the identity from
/// stage one proceeds, as an admin context with its email, exactly when the
/// resolved role's permission set grants the route's required permission;
/// a missing role or an insufficient set halts with 403.
pub open spec fn privilege_gate_contract(
    user: AuthUser,
    email: Seq<char>,
    role_permissions: Option<Seq<Seq<char>>>,
    required: Permission,
    r: Result<AdminUser, AppError>,
) -> bool {
    match role_permissions {
        Some(perms) => {
            if set_grants(perms, required) {
                r matches Ok(a) && a.user_id == user.user_id && a.email@ == email
            } else {
                r matches Err(e) && e.status_code == STATUS_FORBIDDEN && e.message@
                    == "Access denied: Admin privileges required"@
            }
        },
        None => {
            r matches Err(e) && e.status_code == STATUS_FORBIDDEN && e.message@
                == "Access denied: Admin privileges required"@
        },
    }
}

/// The privilege stage: composed after the identity stage on admin routes.
/// It trusts the identity attached by stage one and never re-derives the
/// token; the caller resolves the identity's role in the directory and
/// passes it here.
pub fn privilege_gate(
    user: AuthUser,
    email: String,
    role: Option<&Role>,
    required: Permission,
) -> (r: Result<AdminUser, AppError>)
    ensures
        privilege_gate_contract(
            user,
            email@,
            match role {
                Some(ro) => Some(ro.permissions.deep_view()),
                None => None,
            },
            required,
            r,
        ),
{
    let granted = match role {
        Some(ro) => PermissionService::has_permission(&ro.permissions, &required),
        None => false,
    };
    if granted {
        Ok(AdminUser { user_id: user.user_id, email })
    } else {
        Err(
            AppError {
                message: String::from_str("Access denied: Admin privileges required"),
                status_code: STATUS_FORBIDDEN,
            },
        )
    }
}

/// Law: under a role whose set lacks the required permission the same
/// identity is forbidden with 403, and under a role holding the wildcard it
/// proceeds. The hypotheses are what `privilege_gate` ensures for the two
/// roles.
pub proof fn lemma_privilege_needs_permission(
    user: AuthUser,
    email: Seq<char>,
    lacking: Seq<Seq<char>>,
    wild: Seq<Seq<char>>,
    required: Permission,
    r_lacking: Result<AdminUser, AppError>,
    r_wild: Result<AdminUser, AppError>,
)
    requires
        !set_grants(lacking, required),
        wild.contains("*"@),
        required != Permission::Unknown,
        privilege_gate_contract(user, email, Some(lacking), required, r_lacking),
        privilege_gate_contract(user, email, Some(wild), required, r_wild),
    ensures
        r_lacking matches Err(e) && e.status_code == STATUS_FORBIDDEN,
        r_wild matches Ok(a) && a.user_id == user.user_id,
{
}

/// Resolves the admin's identity record after stage one: the middleware
/// loads it by id, and an absent record (or a failed load, which the caller
/// maps the same way) is an internal error whose text leaks nothing.
pub fn resolve_admin_identity(found: Option<crate::user::User>) -> (r: Result<
    crate::user::User,
    AppError,
>)
    ensures
        (match found {
            Some(u) => r == Ok::<crate::user::User, AppError>(u),
            None => r matches Err(e) && e.status_code == crate::errors::STATUS_INTERNAL
                && e.message@ == "Failed to verify admin status"@,
        }),
{
    match found {
        Some(u) => Ok(u),
        None => Err(
            AppError {
                message: String::from_str("Failed to verify admin status"),
                status_code: crate::errors::STATUS_INTERNAL,
            },
        ),
    }
}

} // verus!
