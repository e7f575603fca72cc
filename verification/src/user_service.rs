//! User-facing business operations over the directory: registration,
//! lookups, updates, deletion, and password checks. Each flow validates its
//! inputs, consults the directory, and maps every failure into the error
//! taxonomy; raw store or crypto failure text never leaves.
use vstd::prelude::*;

use crate::credential::hash_password;
use crate::credential::parseable_hash;
use crate::credential::password_matches;
use crate::credential::verify_password_hash;
use crate::directory::has_email;
use crate::directory::has_user_id;
use crate::directory::registration_result;
use crate::directory::Directory;
use crate::errors::AppError;
use crate::errors::STATUS_BAD_REQUEST;
use crate::errors::STATUS_CONFLICT;
use crate::errors::STATUS_INTERNAL;
use crate::errors::STATUS_NOT_FOUND;
use crate::user::email_shape_ok;
use crate::user::validate_email;
use crate::user::validate_password;
use crate::user::validate_registration_input;
use crate::user::User;
use crate::user::UserRegistration;
use crate::user::MIN_PASSWORD_CHARS;

verus! {

/// Registration inputs pass validation.
pub open spec fn registration_valid(email: Seq<char>, password: Seq<char>) -> bool {
    email.len() > 0 && password.len() >= MIN_PASSWORD_CHARS
}

/// User-facing business operations.
pub struct UserService;

impl UserService {
    /// Registers a new identity: validates the inputs, rejects a taken
    /// email with a conflict, hashes the password, and stores the identity
    /// created at `now`. On success the stored identity is returned, and
    /// its hash matches exactly the password registered.
    pub fn create_user(dir: &mut Directory, registration: UserRegistration, now: u64) -> (r:
        Result<User, AppError>)
        requires
            old(dir).wf(),
        ensures
            final(dir).wf(),
            final(dir).roles@ == old(dir).roles@,
            final(dir).audit_logs@ == old(dir).audit_logs@,
            !registration_valid(registration.email@, registration.password@) ==> (r matches Err(e)
                && e.status_code == STATUS_BAD_REQUEST && final(dir).users@ == old(dir).users@),
            registration_valid(registration.email@, registration.password@) && has_email(
                old(dir).users@,
                registration.email@,
            ) ==> (r matches Err(e) && e.status_code == STATUS_CONFLICT && e.message@
                == "User already exists"@ && final(dir).users@ == old(dir).users@),
            r matches Err(e) ==> final(dir).users@ == old(dir).users@ && (e.status_code
                == STATUS_BAD_REQUEST || e.status_code == STATUS_CONFLICT || e.status_code
                == STATUS_INTERNAL),
            (r matches Err(e) && e.status_code == STATUS_BAD_REQUEST) ==> !registration_valid(
                registration.email@,
                registration.password@,
            ),
            r matches Err(e) ==> (e.status_code == STATUS_CONFLICT ==> e.message@
                == "User already exists"@),
            r matches Ok(u) ==> {
                &&& registration_valid(registration.email@, registration.password@)
                &&& !has_email(old(dir).users@, registration.email@)
                &&& u.email@ == registration.email@
                &&& parseable_hash(u.password_hash@)
                &&& password_matches(registration.password@, u.password_hash@)
                &&& (forall|q: Seq<char>|
                    q != registration.password@ ==> !password_matches(q, u.password_hash@))
                &&& u.created_at == Some(now)
                &&& u.role_id is None
                &&& (final(dir).users@, true) == registration_result(old(dir).users@, u)
            },
    {
        Self::create_user_with_role(dir, registration.email, registration.password, None, now)
    }

    /// Registers a new identity under an optional role; the administrative
    /// creation path. The contract is `create_user`'s, with the role kept.
    pub fn create_user_with_role(
        dir: &mut Directory,
        email: String,
        password: String,
        role_id: Option<u64>,
        now: u64,
    ) -> (r: Result<User, AppError>)
        requires
            old(dir).wf(),
        ensures
            final(dir).wf(),
            final(dir).roles@ == old(dir).roles@,
            final(dir).audit_logs@ == old(dir).audit_logs@,
            !registration_valid(email@, password@) ==> (r matches Err(e) && e.status_code
                == STATUS_BAD_REQUEST && final(dir).users@ == old(dir).users@),
            registration_valid(email@, password@) && has_email(old(dir).users@, email@) ==> (
            r matches Err(e) && e.status_code == STATUS_CONFLICT && e.message@
                == "User already exists"@ && final(dir).users@ == old(dir).users@),
            r matches Err(e) ==> final(dir).users@ == old(dir).users@ && (e.status_code
                == STATUS_BAD_REQUEST || e.status_code == STATUS_CONFLICT || e.status_code
                == STATUS_INTERNAL),
            (r matches Err(e) && e.status_code == STATUS_BAD_REQUEST) ==> !registration_valid(
                email@,
                password@,
            ),
            r matches Err(e) ==> (e.status_code == STATUS_CONFLICT ==> e.message@
                == "User already exists"@),
            r matches Ok(u) ==> {
                &&& registration_valid(email@, password@)
                &&& !has_email(old(dir).users@, email@)
                &&& u.email@ == email@
                &&& parseable_hash(u.password_hash@)
                &&& password_matches(password@, u.password_hash@)
                &&& (forall|q: Seq<char>| q != password@ ==> !password_matches(q, u.password_hash@))
                &&& u.created_at == Some(now)
                &&& u.role_id == role_id
                &&& (final(dir).users@, true) == registration_result(old(dir).users@, u)
            },
    {
        if let Err(e) = validate_registration_input(&email, &password) {
            return Err(e);
        }
        if let Some(_) = dir.find_identity_by_email(email.as_str()) {
            return Err(
                AppError {
                    message: String::from_str("User already exists"),
                    status_code: STATUS_CONFLICT,
                },
            );
        }
        let password_hash = match hash_password(password.as_str()) {
            Ok(h) => h,
            Err(e) => {
                return Err(e);
            },
        };
        let mut user = User::create_new(email, password_hash, now);
        user.role_id = role_id;
        let stored = user.duplicate();
        match dir.insert_identity(user) {
            Ok(_) => Ok(stored),
            Err(e) => Err(e),
        }
    }

    /// Stamps an identity's last login; a failure of the real store is
    /// swallowed by design, so this never fails.
    pub fn update_last_login(dir: &mut Directory, user_id: u128, now: u64)
        requires
            old(dir).wf(),
        ensures
            final(dir).wf(),
            final(dir).roles@ == old(dir).roles@,
            final(dir).audit_logs@ == old(dir).audit_logs@,
            final(dir).users@.len() == old(dir).users@.len(),
            forall|i: int|
                0 <= i < old(dir).users@.len() ==> final(dir).users@[i] == (if old(
                    dir,
                ).users@[i].id == user_id {
                    crate::directory::with_last_login(old(dir).users@[i], now)
                } else {
                    old(dir).users@[i]
                }),
    {
        dir.update_last_login(user_id, now);
    }

    /// Finds an identity by email: a copy of the stored identity exactly
    /// when the email is taken.
    pub fn find_user_by_email(dir: &Directory, email: &str) -> (r: Option<User>)
        ensures
            r is Some <==> has_email(dir.users@, email@),
            r matches Some(u) ==> exists|i: int|
                0 <= i < dir.users@.len() && dir.users@[i] == u && u.email@ == email@,
    {
        dir.find_identity_by_email(email)
    }

    /// Finds an identity by id: a copy of the stored identity exactly when
    /// the id exists.
    pub fn find_user_by_id(dir: &Directory, user_id: u128) -> (r: Option<User>)
        ensures
            r is Some <==> has_user_id(dir.users@, user_id),
            r matches Some(u) ==> exists|i: int|
                0 <= i < dir.users@.len() && dir.users@[i] == u && u.id == user_id,
    {
        dir.find_identity_by_id(user_id)
    }

    /// Updates an identity: each field given replaces the stored one after
    /// validation. An unknown id is 404; a malformed email or short
    /// password is 400; an email already held by a different identity is a
    /// conflict. On success the stored row carries the requested changes
    /// and every other row is untouched.
    pub fn update_user(
        dir: &mut Directory,
        user_id: u128,
        email: Option<String>,
        password: Option<String>,
        role_id: Option<Option<u64>>,
    ) -> (r: Result<User, AppError>)
        requires
            old(dir).wf(),
        ensures
            final(dir).wf(),
            final(dir).roles@ == old(dir).roles@,
            final(dir).audit_logs@ == old(dir).audit_logs@,
            r matches Err(e) ==> final(dir).users@ == old(dir).users@,
            !has_user_id(old(dir).users@, user_id) ==> (r matches Err(e) && e.status_code
                == STATUS_NOT_FOUND),
            (match email {
                Some(e) => !email_shape_ok(e@),
                None => false,
            }) && has_user_id(old(dir).users@, user_id) ==> (r matches Err(e) && e.status_code
                == STATUS_BAD_REQUEST),
            (has_user_id(old(dir).users@, user_id) && (match email {
                Some(e) => email_shape_ok(e@) && (exists|k: int|
                    0 <= k < old(dir).users@.len() && (#[trigger] old(dir).users@[k]).email@ == e@
                        && old(dir).users@[k].id != user_id),
                None => false,
            })) ==> (r matches Err(e2) && e2.status_code == STATUS_CONFLICT && e2.message@
                == "Email already taken"@),
            r matches Ok(u) ==> exists|j: int|
                {
                    &&& 0 <= j < old(dir).users@.len()
                    &&& (#[trigger] old(dir).users@[j]).id == user_id
                    &&& u.id == user_id
                    &&& (match email {
                        Some(e) => u.email@ == e@,
                        None => u.email@ == old(dir).users@[j].email@,
                    })
                    &&& (match password {
                        Some(p) => password_matches(p@, u.password_hash@) && parseable_hash(
                            u.password_hash@,
                        ),
                        None => u.password_hash@ == old(dir).users@[j].password_hash@,
                    })
                    &&& (match role_id {
                        Some(ro) => u.role_id == ro,
                        None => u.role_id == old(dir).users@[j].role_id,
                    })
                    &&& u.created_at == old(dir).users@[j].created_at
                    &&& u.last_login == old(dir).users@[j].last_login
                    &&& final(dir).users@.len() == old(dir).users@.len()
                    &&& (forall|i: int|
                        0 <= i < old(dir).users@.len() ==> final(dir).users@[i] == (if old(
                            dir,
                        ).users@[i].id == user_id {
                            u
                        } else {
                            old(dir).users@[i]
                        }))
                },
    {
        let current = match dir.find_identity_by_id(user_id) {
            Some(u) => u,
            None => {
                return Err(
                    AppError {
                        message: String::from_str("User not found"),
                        status_code: STATUS_NOT_FOUND,
                    },
                );
            },
        };
        let ghost j = choose|j: int|
            0 <= j < dir.users@.len() && dir.users@[j] == current && current.id == user_id;
        proof {
            // ids are unique, so every stored row with this id is the found one
            assert forall|i: int|
                0 <= i < dir.users@.len() && (#[trigger] dir.users@[i]).id == user_id
                implies dir.users@[i] == current by {
                if i < j {
                    assert(dir.users@[i].id != dir.users@[j].id);
                } else if j < i {
                    assert(dir.users@[j].id != dir.users@[i].id);
                }
            }
        }
        let mut updated = current;
        if let Some(new_email) = email {
            if let Err(e) = validate_email(&new_email) {
                return Err(e);
            }
            let ghost users0 = dir.users@;
            let other_holder = dir.find_identity_by_email(new_email.as_str());
            proof {
                // emails are unique, so a row holding the new email under a
                // different id means the lookup found exactly that row
                if exists|k: int|
                    0 <= k < users0.len() && (#[trigger] users0[k]).email@ == new_email@
                        && users0[k].id != user_id {
                    let k = choose|k: int|
                        0 <= k < users0.len() && (#[trigger] users0[k]).email@ == new_email@
                            && users0[k].id != user_id;
                    assert(has_email(users0, new_email@));
                    if other_holder is Some {
                        let o = other_holder->Some_0;
                        let m = choose|m: int|
                            0 <= m < users0.len() && users0[m] == o && o.email@ == new_email@;
                        if m < k {
                            assert(users0[m].email@ != users0[k].email@);
                        } else if k < m {
                            assert(users0[k].email@ != users0[m].email@);
                        }
                    }
                }
            }
            if let Some(other) = other_holder {
                if other.id != user_id {
                    return Err(
                        AppError {
                            message: String::from_str("Email already taken"),
                            status_code: STATUS_CONFLICT,
                        },
                    );
                }
            }
            updated.email = new_email;
        }
        if let Some(new_password) = password {
            if let Err(e) = validate_password(&new_password) {
                return Err(e);
            }
            match hash_password(new_password.as_str()) {
                Ok(h) => {
                    updated.password_hash = h;
                },
                Err(e) => {
                    return Err(e);
                },
            }
        }
        if let Some(new_role) = role_id {
            updated.role_id = new_role;
        }
        proof {
            // on every path either nobody holds the new email, or the one
            // row holding it is this identity's own
            assert(!has_email(dir.users@, updated.email@) || exists|k: int|
                0 <= k < dir.users@.len() && (#[trigger] dir.users@[k]).email@ == updated.email@
                    && dir.users@[k].id == user_id);
            assert forall|i: int|
                0 <= i < dir.users@.len() && (#[trigger] dir.users@[i]).email@ == updated.email@
                implies dir.users@[i].id == updated.id by {
                assert(has_email(dir.users@, updated.email@));
                let k = choose|k: int|
                    0 <= k < dir.users@.len() && (#[trigger] dir.users@[k]).email@
                        == updated.email@ && dir.users@[k].id == user_id;
                if i < k {
                    assert(dir.users@[i].email@ != dir.users@[k].email@);
                } else if k < i {
                    assert(dir.users@[k].email@ != dir.users@[i].email@);
                }
            }
        }
        let result = updated.duplicate();
        match dir.replace_identity(updated) {
            Ok(_) => Ok(result),
            Err(e) => Err(e),
        }
    }

    /// Deletes an identity by id: 404 when it does not exist, otherwise the
    /// row is gone.
    pub fn delete_user(dir: &mut Directory, user_id: u128) -> (r: Result<(), AppError>)
        requires
            old(dir).wf(),
        ensures
            final(dir).wf(),
            final(dir).roles@ == old(dir).roles@,
            final(dir).audit_logs@ == old(dir).audit_logs@,
            r is Ok <==> has_user_id(old(dir).users@, user_id),
            r is Ok ==> final(dir).users@ == old(dir).users@.filter(
                crate::directory::keeps(user_id),
            ),
            r matches Err(e) ==> e.status_code == STATUS_NOT_FOUND && e.message@
                == "User not found"@ && final(dir).users@ == old(dir).users@,
    {
        dir.delete_identity(user_id)
    }

    /// Verifies a password against an identity's stored hash: a mismatch is
    /// `Ok(false)`, and the one error is a stored hash that does not parse
    /// — data corruption, an internal failure.
    pub fn verify_password(user: &User, password: &str) -> (r: Result<bool, AppError>)
        ensures
            r is Ok <==> parseable_hash(user.password_hash@),
            r matches Ok(b) ==> b == password_matches(password@, user.password_hash@),
            r matches Err(e) ==> e.status_code == STATUS_INTERNAL && e.message@
                == "Invalid password hash"@,
    {
        verify_password_hash(password, user.password_hash.as_str())
    }
}

} // verus!
