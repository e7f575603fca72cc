//! Identity domain model and input validation. An identity's id is an
//! opaque 128-bit value, timestamps are unix seconds, and the optional role
//! reference points into the role table; the boolean-flag admin model is
//! subsumed by a role whose permission set holds the wildcard.
use vstd::prelude::*;

use crate::errors::AppError;
use crate::errors::STATUS_BAD_REQUEST;
use crate::ids::fresh_uuid;

verus! {

/// The shortest password accepted at registration, in characters.
pub const MIN_PASSWORD_CHARS: usize = 6;

/// An identity: a principal that can authenticate. The email is globally
/// unique (the directory enforces it); the password hash is a
/// self-describing string and is never logged or returned verbatim.
pub struct User {
    pub id: u128,
    pub email: String,
    pub password_hash: String,
    pub created_at: Option<u64>,
    pub last_login: Option<u64>,
    pub role_id: Option<u64>,
}

impl User {
    /// An identity from stored fields.
    pub fn new(
        id: u128,
        email: String,
        password_hash: String,
        created_at: Option<u64>,
        last_login: Option<u64>,
        role_id: Option<u64>,
    ) -> (u: User)
        ensures
            u.id == id,
            u.email@ == email@,
            u.password_hash@ == password_hash@,
            u.created_at == created_at,
            u.last_login == last_login,
            u.role_id == role_id,
    {
        User { id, email, password_hash, created_at, last_login, role_id }
    }

    /// A brand-new identity for registration: a fresh random id, created
    /// now, never logged in, no role.
    pub fn create_new(email: String, password_hash: String, now: u64) -> (u: User)
        ensures
            u.email@ == email@,
            u.password_hash@ == password_hash@,
            u.created_at == Some(now),
            u.last_login is None,
            u.role_id is None,
    {
        User {
            id: fresh_uuid(),
            email,
            password_hash,
            created_at: Some(now),
            last_login: None,
            role_id: None,
        }
    }

    /// A field-for-field copy.
    pub fn duplicate(&self) -> (u: User)
        ensures
            u == *self,
    {
        User {
            id: self.id,
            email: self.email.clone(),
            password_hash: self.password_hash.clone(),
            created_at: self.created_at,
            last_login: self.last_login,
            role_id: self.role_id,
        }
    }
}

/// A registration request: an email and a plain password.
pub struct UserRegistration {
    pub email: String,
    pub password: String,
}

impl UserRegistration {
    pub fn new(email: String, password: String) -> (r: UserRegistration)
        ensures
            r.email@ == email@,
            r.password@ == password@,
    {
        UserRegistration { email, password }
    }
}

/// A login request: an email and a plain password.
pub struct UserLogin {
    pub email: String,
    pub password: String,
}

impl UserLogin {
    pub fn new(email: String, password: String) -> (r: UserLogin)
        ensures
            r.email@ == email@,
            r.password@ == password@,
    {
        UserLogin { email, password }
    }
}

/// Checks a registration's inputs: both fields must be present and the
/// password at least six characters. Rejections are 400s with the exact
/// message for the first failed check.
pub fn validate_registration_input(email: &String, password: &String) -> (r: Result<
    (),
    AppError,
>)
    ensures
        r is Ok <==> (email@.len() > 0 && password@.len() >= MIN_PASSWORD_CHARS),
        r matches Err(e) ==> e.status_code == STATUS_BAD_REQUEST,
        (email@.len() == 0 || password@.len() == 0) ==> (r matches Err(e) && e.message@
            == "Email and password are required"@),
        (email@.len() > 0 && 0 < password@.len() < MIN_PASSWORD_CHARS) ==> (r matches Err(e)
            && e.message@ == "Password must be at least 6 characters"@),
{
    if email.as_str().unicode_len() == 0 || password.as_str().unicode_len() == 0 {
        return Err(
            AppError {
                message: String::from_str("Email and password are required"),
                status_code: STATUS_BAD_REQUEST,
            },
        );
    }
    if password.as_str().unicode_len() < MIN_PASSWORD_CHARS {
        return Err(
            AppError {
                message: String::from_str("Password must be at least 6 characters"),
                status_code: STATUS_BAD_REQUEST,
            },
        );
    }
    Ok(())
}

/// Checks a login's inputs: both fields must be present. Rejections are
/// 400s.
pub fn validate_login_input(email: &String, password: &String) -> (r: Result<(), AppError>)
    ensures
        r is Ok <==> (email@.len() > 0 && password@.len() > 0),
        r matches Err(e) ==> e.status_code == STATUS_BAD_REQUEST && e.message@
            == "Email and password are required"@,
{
    if email.as_str().unicode_len() == 0 || password.as_str().unicode_len() == 0 {
        return Err(
            AppError {
                message: String::from_str("Email and password are required"),
                status_code: STATUS_BAD_REQUEST,
            },
        );
    }
    Ok(())
}

/// A well-shaped email for updates: non-empty and holding an `@`.
pub open spec fn email_shape_ok(email: Seq<char>) -> bool {
    email.len() > 0 && email.contains('@')
}

/// Checks an email's shape on update: non-empty and holding an `@`.
pub fn validate_email(email: &String) -> (r: Result<(), AppError>)
    ensures
        r is Ok <==> email_shape_ok(email@),
        r matches Err(e) ==> e.status_code == STATUS_BAD_REQUEST && e.message@
            == "Invalid email format"@,
{
    let n = email.as_str().unicode_len();
    let mut i: usize = 0;
    let mut seen_at = false;
    while i < n
        invariant
            n == email@.len(),
            i <= n,
            seen_at <==> exists|k: int| 0 <= k < i && email@[k] == '@',
        decreases n - i,
    {
        if email.as_str().get_char(i) == '@' {
            seen_at = true;
        }
        i = i + 1;
    }
    if n > 0 && seen_at {
        Ok(())
    } else {
        Err(
            AppError {
                message: String::from_str("Invalid email format"),
                status_code: STATUS_BAD_REQUEST,
            },
        )
    }
}

/// Checks a password on update: at least six characters.
pub fn validate_password(password: &String) -> (r: Result<(), AppError>)
    ensures
        r is Ok <==> password@.len() >= MIN_PASSWORD_CHARS,
        r matches Err(e) ==> e.status_code == STATUS_BAD_REQUEST && e.message@
            == "Password must be at least 6 characters"@,
{
    if password.as_str().unicode_len() < MIN_PASSWORD_CHARS {
        return Err(
            AppError {
                message: String::from_str("Password must be at least 6 characters"),
                status_code: STATUS_BAD_REQUEST,
            },
        );
    }
    Ok(())
}

} // verus!
