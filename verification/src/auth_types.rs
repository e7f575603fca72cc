//! Wire types of the authentication surface and their shaping from domain
//! values.
use vstd::prelude::*;

use crate::errors::AppError;
use crate::errors::STATUS_NOT_FOUND;
use crate::ids::uuid_text;
use crate::ids::uuid_text_of;
use crate::timestamp::format_timestamp;
use crate::timestamp::rfc3339_of;
use crate::timestamp::MAX_RFC3339_SECONDS;
use crate::user::User;

verus! {

/// A registration request body.
pub struct RegisterRequest {
    pub email: String,
    pub password: String,
}

/// A login request body.
pub struct LoginRequest {
    pub email: String,
    pub password: String,
}

/// A successful login: the bearer token.
pub struct LoginResponse {
    pub token: String,
}

/// A successful registration: who was created and when.
pub struct RegisterResponse {
    pub message: String,
    pub user_id: String,
    pub email: String,
    pub created_at: Option<String>,
}

/// The authenticated identity's own view of itself.
pub struct ProfileResponse {
    pub id: String,
    pub email: String,
    pub created_at: Option<String>,
}

impl RegisterResponse {
    /// Shapes a freshly created identity for the wire.
    pub fn of(u: &User) -> (r: RegisterResponse)
        ensures
            r.message@ == "User created successfully"@,
            r.user_id@ == uuid_text_of(u.id),
            r.email@ == u.email@,
            (match u.created_at {
                Some(t) => t <= MAX_RFC3339_SECONDS ==> (r.created_at matches Some(s) && s@
                    == rfc3339_of(t)),
                None => r.created_at is None,
            }),
    {
        RegisterResponse {
            message: String::from_str("User created successfully"),
            user_id: uuid_text(u.id),
            email: u.email.clone(),
            created_at: format_timestamp(u.created_at),
        }
    }
}

/// Shapes the profile lookup's outcome: the stored identity when it exists,
/// 404 when the authenticated id is gone from the directory. The password
/// hash never crosses over.
pub fn profile_response(found: Option<User>) -> (r: Result<ProfileResponse, AppError>)
    ensures
        (match found {
            Some(u) => r matches Ok(p) && p.id@ == uuid_text_of(u.id) && p.email@ == u.email@ && (
            match u.created_at {
                Some(t) => t <= MAX_RFC3339_SECONDS ==> (p.created_at matches Some(s) && s@
                    == rfc3339_of(t)),
                None => p.created_at is None,
            }),
            None => r matches Err(e) && e.status_code == STATUS_NOT_FOUND && e.message@
                == "User not found"@,
        }),
{
    match found {
        Some(u) => Ok(
            ProfileResponse {
                id: uuid_text(u.id),
                email: u.email,
                created_at: format_timestamp(u.created_at),
            },
        ),
        None => Err(
            AppError {
                message: String::from_str("User not found"),
                status_code: STATUS_NOT_FOUND,
            },
        ),
    }
}

} // verus!
