//! Authentication flow: credentials in, signed token out. An unknown email
//! and a wrong password are indistinguishable to the caller ("Invalid
//! credentials", 401); a successful login stamps the identity's last login
//! and issues a token good for 24 hours from the given clock value.
use vstd::prelude::*;

use crate::credential::parseable_hash;
use crate::credential::password_matches;
use crate::directory::has_email;
use crate::directory::with_last_login;
use crate::directory::Directory;
use crate::errors::AppError;
use crate::errors::STATUS_BAD_REQUEST;
use crate::errors::STATUS_INTERNAL;
use crate::errors::STATUS_UNAUTHORIZED;
use crate::ids::uuid_text_of;
use crate::token::claims_of;
use crate::token::TokenService;
use crate::token::TOKEN_TTL_SECONDS;
use crate::user::UserLogin;
use crate::user::validate_login_input;
use crate::user_service::UserService;

verus! {

/// A freshly issued token with its subject and expiry.
pub struct AuthToken {
    pub token: String,
    pub user_id: u128,
    pub expires_at: u64,
}

impl AuthToken {
    pub fn new(token: String, user_id: u128, expires_at: u64) -> (r: AuthToken)
        ensures
            r.token@ == token@,
            r.user_id == user_id,
            r.expires_at == expires_at,
    {
        AuthToken { token, user_id, expires_at }
    }
}

/// Authentication-related business operations.
pub struct AuthService;

impl AuthService {
    /// Authenticates a login and issues a token. Empty fields are 400; an
    /// unknown email, and a known email with a non-matching password, are
    /// both 401 with the same message, so the result never reveals whether
    /// the email is registered; a corrupt stored hash is the one internal
    /// failure. A matching password always yields a token whose claims
    /// carry the identity's id and an expiry 24 hours past `now`, and
    /// stamps the identity's last login.
    pub fn authenticate_user(
        dir: &mut Directory,
        login: UserLogin,
        svc: &TokenService,
        now: u64,
    ) -> (r: Result<AuthToken, AppError>)
        requires
            old(dir).wf(),
            now + TOKEN_TTL_SECONDS <= u64::MAX,
        ensures
            final(dir).wf(),
            final(dir).roles@ == old(dir).roles@,
            final(dir).audit_logs@ == old(dir).audit_logs@,
            r matches Err(e) ==> final(dir).users@ == old(dir).users@ && (e.status_code
                == STATUS_BAD_REQUEST || e.status_code == STATUS_UNAUTHORIZED || e.status_code
                == STATUS_INTERNAL),
            (login.email@.len() == 0 || login.password@.len() == 0) ==> (r matches Err(e)
                && e.status_code == STATUS_BAD_REQUEST),
            (login.email@.len() > 0 && login.password@.len() > 0 && !has_email(
                old(dir).users@,
                login.email@,
            )) ==> (r matches Err(e) && e.status_code == STATUS_UNAUTHORIZED && e.message@
                == "Invalid credentials"@),
            (login.email@.len() > 0 && login.password@.len() > 0 && exists|i: int|
                0 <= i < old(dir).users@.len() && (#[trigger] old(dir).users@[i]).email@
                    == login.email@ && !parseable_hash(old(dir).users@[i].password_hash@)) ==> (
            r matches Err(e) && e.status_code == STATUS_INTERNAL),
            (login.email@.len() > 0 && login.password@.len() > 0 && exists|i: int|
                0 <= i < old(dir).users@.len() && (#[trigger] old(dir).users@[i]).email@
                    == login.email@ && parseable_hash(old(dir).users@[i].password_hash@)
                    && !password_matches(login.password@, old(dir).users@[i].password_hash@))
                ==> (r matches Err(e) && e.status_code == STATUS_UNAUTHORIZED && e.message@
                == "Invalid credentials"@),
            (login.email@.len() > 0 && login.password@.len() > 0 && exists|i: int|
                0 <= i < old(dir).users@.len() && (#[trigger] old(dir).users@[i]).email@
                    == login.email@ && parseable_hash(old(dir).users@[i].password_hash@)
                    && password_matches(login.password@, old(dir).users@[i].password_hash@))
                ==> r is Ok,
            r matches Ok(t) ==> exists|i: int|
                {
                    &&& 0 <= i < old(dir).users@.len()
                    &&& (#[trigger] old(dir).users@[i]).email@ == login.email@
                    &&& password_matches(login.password@, old(dir).users@[i].password_hash@)
                    &&& t.user_id == old(dir).users@[i].id
                    &&& t.expires_at == now + TOKEN_TTL_SECONDS
                    &&& claims_of(t.token@, svc.secret()) == Some(
                        (uuid_text_of(t.user_id), t.expires_at),
                    )
                },
            r matches Ok(t) ==> final(dir).users@.len() == old(dir).users@.len() && (forall|i: int|
                0 <= i < old(dir).users@.len() ==> final(dir).users@[i] == (if old(
                    dir,
                ).users@[i].id == t.user_id {
                    with_last_login(old(dir).users@[i], now)
                } else {
                    old(dir).users@[i]
                })),
    {
        if let Err(e) = validate_login_input(&login.email, &login.password) {
            return Err(e);
        }
        let user = match UserService::find_user_by_email(dir, login.email.as_str()) {
            Some(u) => u,
            None => {
                return Err(
                    AppError {
                        message: String::from_str("Invalid credentials"),
                        status_code: STATUS_UNAUTHORIZED,
                    },
                );
            },
        };
        let ghost uidx = choose|i: int|
            0 <= i < dir.users@.len() && dir.users@[i] == user && user.email@ == login.email@;
        proof {
            // emails are unique, so every stored row with this email is the
            // found one
            assert forall|i: int|
                0 <= i < dir.users@.len() && (#[trigger] dir.users@[i]).email@ == login.email@
                implies dir.users@[i] == user by {
                if i < uidx {
                    assert(dir.users@[i].email@ != dir.users@[uidx].email@);
                } else if uidx < i {
                    assert(dir.users@[uidx].email@ != dir.users@[i].email@);
                }
            }
        }
        match UserService::verify_password(&user, login.password.as_str()) {
            Err(e) => {
                return Err(e);
            },
            Ok(false) => {
                return Err(
                    AppError {
                        message: String::from_str("Invalid credentials"),
                        status_code: STATUS_UNAUTHORIZED,
                    },
                );
            },
            Ok(true) => {},
        }
        let token = svc.issue(user.id, now);
        UserService::update_last_login(dir, user.id, now);
        Ok(AuthToken::new(token, user.id, now + TOKEN_TTL_SECONDS))
    }
}

} // verus!
