//! The identity directory: the persistence contract the core consumes —
//! user, role and audit-log lookups and writes — realized as a verified
//! in-memory store. The cross-request invariants the core relies on are
//! enforced here: ids and emails are unique, and an insert that would break
//! either is a conflict. Production deployments put a relational store
//! behind the same contract; its primary-key and unique constraints play
//! this module's role.
use vstd::prelude::*;

use crate::audit::AuditLogEntry;
use crate::errors::AppError;
use crate::errors::STATUS_CONFLICT;
use crate::errors::STATUS_NOT_FOUND;
use crate::text::str_eq;
use crate::user::User;

verus! {

/// A named bundle of permissions assignable to an identity. The permission
/// set is a list of identifier strings from the catalog; the wildcard
/// grants everything.
pub struct Role {
    pub id: u64,
    pub name: String,
    pub description: String,
    pub permissions: Vec<String>,
    pub created_at: u64,
    pub updated_at: u64,
}

fn clone_strings(v: &Vec<String>) -> (r: Vec<String>)
    ensures
        r@.len() == v@.len(),
        forall|i: int| 0 <= i < v@.len() ==> r@[i] == v@[i],
{
    let mut r: Vec<String> = Vec::new();
    let mut i: usize = 0;
    while i < v.len()
        invariant
            i <= v@.len(),
            r@.len() == i,
            forall|k: int| 0 <= k < i ==> r@[k] == v@[k],
        decreases v@.len() - i,
    {
        r.push(v[i].clone());
        i = i + 1;
    }
    r
}

impl Role {
    /// A field-for-field copy.
    pub fn duplicate(&self) -> (r: Role)
        ensures
            r.id == self.id,
            r.name@ == self.name@,
            r.description@ == self.description@,
            r.permissions@.len() == self.permissions@.len(),
            forall|i: int|
                0 <= i < self.permissions@.len() ==> r.permissions@[i] == self.permissions@[i],
            r.permissions.deep_view() == self.permissions.deep_view(),
            r.created_at == self.created_at,
            r.updated_at == self.updated_at,
    {
        let permissions = clone_strings(&self.permissions);
        proof {
            assert(permissions.deep_view() =~= self.permissions.deep_view());
        }
        Role {
            id: self.id,
            name: self.name.clone(),
            description: self.description.clone(),
            permissions,
            created_at: self.created_at,
            updated_at: self.updated_at,
        }
    }
}

/// Some stored identity carries this email.
pub open spec fn has_email(users: Seq<User>, email: Seq<char>) -> bool {
    exists|i: int| 0 <= i < users.len() && users[i].email@ == email
}

/// Some stored identity carries this id.
pub open spec fn has_user_id(users: Seq<User>, id: u128) -> bool {
    exists|i: int| 0 <= i < users.len() && users[i].id == id
}

/// No two stored identities share an email.
pub open spec fn unique_emails(users: Seq<User>) -> bool {
    forall|i: int, j: int| 0 <= i < j < users.len() ==> users[i].email@ != users[j].email@
}

/// No two stored identities share an id.
pub open spec fn unique_ids(users: Seq<User>) -> bool {
    forall|i: int, j: int| 0 <= i < j < users.len() ==> users[i].id != users[j].id
}

/// No two stored roles share an id.
pub open spec fn unique_role_ids(roles: Seq<Role>) -> bool {
    forall|i: int, j: int| 0 <= i < j < roles.len() ==> roles[i].id != roles[j].id
}

/// An identity with its last-login stamp set.
pub open spec fn with_last_login(u: User, now: u64) -> User {
    User {
        id: u.id,
        email: u.email,
        password_hash: u.password_hash,
        created_at: u.created_at,
        last_login: Some(now),
        role_id: u.role_id,
    }
}

/// The rows a delete of one id keeps: every identity whose id differs.
pub open spec fn keeps(id: u128) -> spec_fn(User) -> bool {
    |u: User| u.id != id
}

/// What one registration attempt makes of the stored identities: a taken
/// email or id leaves them unchanged and loses; otherwise the attempt is
/// appended and wins.
pub open spec fn registration_result(users: Seq<User>, attempt: User) -> (Seq<User>, bool) {
    if has_email(users, attempt.email@) || has_user_id(users, attempt.id) {
        (users, false)
    } else {
        (users.push(attempt), true)
    }
}

/// How many of a run of registration attempts, applied in order, win.
pub open spec fn count_winners(users: Seq<User>, attempts: Seq<User>) -> nat
    decreases attempts.len(),
{
    if attempts.len() == 0 {
        0
    } else {
        let step = registration_result(users, attempts[0]);
        (if step.1 {
            1nat
        } else {
            0nat
        }) + count_winners(step.0, attempts.skip(1))
    }
}

/// On a taken email every attempt carrying it loses, whatever its id.
pub proof fn lemma_taken_email_no_winners(users: Seq<User>, attempts: Seq<User>, email: Seq<char>)
    requires
        has_email(users, email),
        forall|i: int| 0 <= i < attempts.len() ==> (#[trigger] attempts[i]).email@ == email,
    ensures
        count_winners(users, attempts) == 0,
    decreases attempts.len(),
{
    if attempts.len() > 0 {
        assert(attempts[0].email@ == email);
        let step = registration_result(users, attempts[0]);
        assert(step.0 == users);
        assert(forall|i: int|
            0 <= i < attempts.skip(1).len() ==> (#[trigger] attempts.skip(1)[i]).email@ == email)
            by {
            assert(forall|i: int|
                0 <= i < attempts.skip(1).len() ==> attempts.skip(1)[i] == attempts[i + 1]);
        }
        lemma_taken_email_no_winners(users, attempts.skip(1), email);
    }
}

/// Law: however many registration attempts carry the same free email,
/// exactly one wins, whatever their order; on a taken email, none does (see
/// [`lemma_taken_email_no_winners`]). Concurrent attempts reach the store
/// through its own concurrency control, so any interleaving is some such
/// order. The first attempt's id must be fresh, as a random id is.
pub proof fn lemma_same_email_registrations_one_winner(
    users: Seq<User>,
    attempts: Seq<User>,
    email: Seq<char>,
)
    requires
        attempts.len() > 0,
        !has_email(users, email),
        !has_user_id(users, attempts[0].id),
        forall|i: int| 0 <= i < attempts.len() ==> (#[trigger] attempts[i]).email@ == email,
    ensures
        count_winners(users, attempts) == 1,
{
    assert(attempts[0].email@ == email);
    let step = registration_result(users, attempts[0]);
    assert(step.1);
    assert(step.0 == users.push(attempts[0]));
    assert(step.0[users.len() as int].email@ == email);
    assert(has_email(step.0, email));
    if attempts.len() > 1 {
        assert(forall|i: int|
            0 <= i < attempts.skip(1).len() ==> (#[trigger] attempts.skip(1)[i]).email@ == email)
            by {
            assert(forall|i: int|
                0 <= i < attempts.skip(1).len() ==> attempts.skip(1)[i] == attempts[i + 1]);
        }
        lemma_taken_email_no_winners(step.0, attempts.skip(1), email);
    } else {
        assert(attempts.skip(1).len() == 0);
        assert(count_winners(step.0, attempts.skip(1)) == 0);
    }
}

/// The stored state: identities, roles, and the audit trail.
pub struct Directory {
    pub users: Vec<User>,
    pub roles: Vec<Role>,
    pub audit_logs: Vec<AuditLogEntry>,
}

impl Directory {
    /// The directory's invariant: identity ids, emails and role ids are
    /// unique.
    pub open spec fn wf(&self) -> bool {
        unique_emails(self.users@) && unique_ids(self.users@) && unique_role_ids(self.roles@)
    }

    /// An empty directory.
    pub fn new() -> (d: Directory)
        ensures
            d.wf(),
            d.users@.len() == 0,
            d.roles@.len() == 0,
            d.audit_logs@.len() == 0,
    {
        Directory { users: Vec::new(), roles: Vec::new(), audit_logs: Vec::new() }
    }

    /// Looks an identity up by email: exactly when one carries it, a copy
    /// of that stored identity comes back.
    pub fn find_identity_by_email(&self, email: &str) -> (r: Option<User>)
        ensures
            r is Some <==> has_email(self.users@, email@),
            r matches Some(u) ==> exists|i: int|
                0 <= i < self.users@.len() && self.users@[i] == u && u.email@ == email@,
    {
        let mut i: usize = 0;
        while i < self.users.len()
            invariant
                i <= self.users@.len(),
                forall|k: int| 0 <= k < i ==> self.users@[k].email@ != email@,
            decreases self.users@.len() - i,
        {
            if str_eq(self.users[i].email.as_str(), email) {
                return Some(self.users[i].duplicate());
            }
            i = i + 1;
        }
        None
    }

    /// Looks an identity up by id: exactly when one carries it, a copy of
    /// that stored identity comes back.
    pub fn find_identity_by_id(&self, id: u128) -> (r: Option<User>)
        ensures
            r is Some <==> has_user_id(self.users@, id),
            r matches Some(u) ==> exists|i: int|
                0 <= i < self.users@.len() && self.users@[i] == u && u.id == id,
    {
        let mut i: usize = 0;
        while i < self.users.len()
            invariant
                i <= self.users@.len(),
                forall|k: int| 0 <= k < i ==> self.users@[k].id != id,
            decreases self.users@.len() - i,
        {
            if self.users[i].id == id {
                return Some(self.users[i].duplicate());
            }
            i = i + 1;
        }
        None
    }

    /// Inserts a new identity. A taken email or id is a conflict and
    /// changes nothing; otherwise the identity is appended. This is the
    /// unique-constraint behavior the registration flow relies on.
    pub fn insert_identity(&mut self, user: User) -> (r: Result<(), AppError>)
        requires
            old(self).wf(),
        ensures
            final(self).wf(),
            final(self).roles@ == old(self).roles@,
            final(self).audit_logs@ == old(self).audit_logs@,
            (final(self).users@, r is Ok) == registration_result(old(self).users@, user),
            r matches Err(e) ==> e.status_code == STATUS_CONFLICT && e.message@
                == "User already exists"@ && final(self).users@ == old(self).users@,
    {
        let ghost users0 = self.users@;
        let mut i: usize = 0;
        while i < self.users.len()
            invariant
                self.users@ == users0,
                self.roles@ == old(self).roles@,
                self.audit_logs@ == old(self).audit_logs@,
                unique_emails(users0),
                unique_ids(users0),
                unique_role_ids(self.roles@),
                i <= users0.len(),
                forall|k: int|
                    0 <= k < i ==> (#[trigger] users0[k]).email@ != user.email@ && users0[k].id
                        != user.id,
            decreases users0.len() - i,
        {
            if str_eq(self.users[i].email.as_str(), user.email.as_str()) || self.users[i].id
                == user.id {
                return Err(
                    AppError {
                        message: String::from_str("User already exists"),
                        status_code: STATUS_CONFLICT,
                    },
                );
            }
            i = i + 1;
        }
        proof {
            assert(!has_email(users0, user.email@));
            assert(!has_user_id(users0, user.id));
        }
        self.users.push(user);
        proof {
            assert forall|a: int, b: int|
                0 <= a < b < self.users@.len() implies self.users@[a].email@
                != self.users@[b].email@ && self.users@[a].id != self.users@[b].id by {
                if b < users0.len() {
                } else {
                    assert(self.users@[b] == user);
                    assert(users0[a].email@ != user.email@);
                    assert(users0[a].id != user.id);
                }
            }
        }
        Ok(())
    }

    /// Stamps the last login of the identity with this id; everything else
    /// is untouched. Failures of the real store are swallowed by the
    /// caller, by design.
    pub fn update_last_login(&mut self, id: u128, now: u64)
        requires
            old(self).wf(),
        ensures
            final(self).wf(),
            final(self).roles@ == old(self).roles@,
            final(self).audit_logs@ == old(self).audit_logs@,
            final(self).users@.len() == old(self).users@.len(),
            forall|i: int|
                0 <= i < old(self).users@.len() ==> final(self).users@[i] == (if old(
                    self,
                ).users@[i].id == id {
                    with_last_login(old(self).users@[i], now)
                } else {
                    old(self).users@[i]
                }),
    {
        let ghost users0 = self.users@;
        let n = self.users.len();
        let mut updated: Vec<User> = Vec::new();
        let mut i: usize = 0;
        while i < n
            invariant
                self.users@ == users0,
                self.roles@ == old(self).roles@,
                self.audit_logs@ == old(self).audit_logs@,
                unique_role_ids(self.roles@),
                n == users0.len(),
                i <= n,
                updated@.len() == i,
                forall|k: int|
                    0 <= k < i ==> updated@[k] == (if users0[k].id == id {
                        with_last_login(users0[k], now)
                    } else {
                        users0[k]
                    }),
            decreases n - i,
        {
            let mut u = self.users[i].duplicate();
            if u.id == id {
                u.last_login = Some(now);
            }
            updated.push(u);
            i = i + 1;
        }
        self.users = updated;
        proof {
            assert forall|a: int, b: int|
                0 <= a < b < self.users@.len() implies self.users@[a].email@
                != self.users@[b].email@ && self.users@[a].id != self.users@[b].id by {
                assert(users0[a].email@ != users0[b].email@);
                assert(users0[a].id != users0[b].id);
            }
        }
    }

    /// Replaces the identity carrying `updated.id` with `updated`: exactly
    /// when one carries it, that row becomes `updated` and every other row
    /// is untouched; an unknown id is not found. The caller must have ruled
    /// out handing this row a new email while another row holds it.
    pub fn replace_identity(&mut self, updated: User) -> (r: Result<(), AppError>)
        requires
            old(self).wf(),
            forall|i: int|
                0 <= i < old(self).users@.len() && (#[trigger] old(self).users@[i]).email@
                    == updated.email@ ==> old(self).users@[i].id == updated.id,
        ensures
            final(self).wf(),
            final(self).roles@ == old(self).roles@,
            final(self).audit_logs@ == old(self).audit_logs@,
            r is Ok <==> has_user_id(old(self).users@, updated.id),
            final(self).users@.len() == old(self).users@.len(),
            forall|i: int|
                0 <= i < old(self).users@.len() ==> final(self).users@[i] == (if old(
                    self,
                ).users@[i].id == updated.id && r is Ok {
                    updated
                } else {
                    old(self).users@[i]
                }),
            r matches Err(e) ==> e.status_code == STATUS_NOT_FOUND && e.message@
                == "User not found"@,
    {
        let ghost users0 = self.users@;
        let n = self.users.len();
        let mut i: usize = 0;
        while i < n
            invariant
                users0 == old(self).users@,
                self.users@ == users0,
                self.roles@ == old(self).roles@,
                self.audit_logs@ == old(self).audit_logs@,
                unique_emails(users0),
                unique_ids(users0),
                unique_role_ids(self.roles@),
                forall|k: int|
                    0 <= k < users0.len() && (#[trigger] users0[k]).email@ == updated.email@
                        ==> users0[k].id == updated.id,
                n == users0.len(),
                i <= n,
                forall|k: int| 0 <= k < i ==> (#[trigger] users0[k]).id != updated.id,
            decreases n - i,
        {
            if self.users[i].id == updated.id {
                let ghost j = i as int;
                self.users.set(i, updated);
                proof {
                    assert(self.users@ =~= users0.update(j, updated));
                    assert forall|a: int, b: int|
                        0 <= a < b < self.users@.len() implies self.users@[a].email@
                        != self.users@[b].email@ && self.users@[a].id != self.users@[b].id by {
                        if a != j && b != j {
                            assert(users0[a].email@ != users0[b].email@);
                            assert(users0[a].id != users0[b].id);
                        } else {
                            let k = if a == j {
                                b
                            } else {
                                a
                            };
                            assert(users0[k].id != users0[j].id);
                            if users0[k].email@ == updated.email@ {
                                assert(users0[k].id == updated.id);
                            }
                        }
                    }
                }
                return Ok(());
            }
            i = i + 1;
        }
        Err(
            AppError {
                message: String::from_str("User not found"),
                status_code: STATUS_NOT_FOUND,
            },
        )
    }

    /// Deletes the identity with this id: exactly when one carries it, no
    /// row with that id remains and everything else is kept in order; an
    /// unknown id is not found.
    pub fn delete_identity(&mut self, id: u128) -> (r: Result<(), AppError>)
        requires
            old(self).wf(),
        ensures
            final(self).wf(),
            final(self).roles@ == old(self).roles@,
            final(self).audit_logs@ == old(self).audit_logs@,
            r is Ok <==> has_user_id(old(self).users@, id),
            r is Ok ==> final(self).users@ == old(self).users@.filter(keeps(id)),
            r matches Err(e) ==> e.status_code == STATUS_NOT_FOUND && e.message@
                == "User not found"@ && final(self).users@ == old(self).users@,
    {
        let ghost users0 = self.users@;
        let ghost pred = keeps(id);
        let n = self.users.len();
        let mut kept: Vec<User> = Vec::new();
        let mut found = false;
        let mut i: usize = 0;
        proof {
            reveal_with_fuel(Seq::filter, 3);
            assert(users0.take(0) =~= Seq::<User>::empty());
            assert(Seq::<User>::empty().filter(pred) =~= Seq::<User>::empty());
        }
        while i < n
            invariant
                self.users@ == users0,
                self.roles@ == old(self).roles@,
                self.audit_logs@ == old(self).audit_logs@,
                unique_emails(users0),
                unique_ids(users0),
                unique_role_ids(self.roles@),
                pred == keeps(id),
                n == users0.len(),
                i <= n,
                kept@ == users0.take(i as int).filter(pred),
                unique_emails(kept@),
                unique_ids(kept@),
                found <==> exists|k: int| 0 <= k < i && users0[k].id == id,
            decreases n - i,
        {
            let ghost prefix = users0.take(i as int);
            let ghost kept0 = kept@;
            let u = self.users[i].duplicate();
            proof {
                reveal_with_fuel(Seq::filter, 3);
                assert(users0.take(i + 1) =~= prefix + seq![users0[i as int]]);
                Seq::filter_distributes_over_add(prefix, seq![users0[i as int]], pred);
                assert(seq![users0[i as int]].drop_last() =~= Seq::<User>::empty());
                if users0[i as int].id != id {
                    assert(seq![users0[i as int]].filter(pred) =~= seq![users0[i as int]]);
                } else {
                    assert(seq![users0[i as int]].filter(pred) =~= Seq::<User>::empty());
                }
            }
            if u.id == id {
                found = true;
                proof {
                    assert(kept@ =~= users0.take(i + 1).filter(pred));
                }
            } else {
                proof {
                    assert forall|k: int|
                        0 <= k < kept0.len() implies kept0[k].email@ != users0[i as int].email@
                        && kept0[k].id != users0[i as int].id by {
                        assert(prefix.filter(pred)[k] == kept0[k]);
                        assert(prefix.filter(pred).contains(kept0[k]));
                        prefix.lemma_filter_contains_rev(pred, kept0[k]);
                        let j = choose|j: int| 0 <= j < prefix.len() && prefix[j] == kept0[k];
                        assert(users0[j] == kept0[k]);
                        assert(users0[j].email@ != users0[i as int].email@);
                        assert(users0[j].id != users0[i as int].id);
                    }
                }
                kept.push(u);
                proof {
                    assert(kept@ =~= users0.take(i + 1).filter(pred));
                    assert forall|a: int, b: int|
                        0 <= a < b < kept@.len() implies kept@[a].email@ != kept@[b].email@
                        && kept@[a].id != kept@[b].id by {
                        if b == kept0.len() {
                            assert(kept@[a] == kept0[a]);
                            assert(kept@[b] == users0[i as int]);
                        } else {
                            assert(kept@[a] == kept0[a]);
                            assert(kept@[b] == kept0[b]);
                        }
                    }
                }
            }
            i = i + 1;
        }
        proof {
            assert(users0.take(n as int) =~= users0);
        }
        if !found {
            return Err(
                AppError {
                    message: String::from_str("User not found"),
                    status_code: STATUS_NOT_FOUND,
                },
            );
        }
        self.users = kept;
        Ok(())
    }

    /// Looks a role up by id: exactly when one carries it, a copy comes
    /// back.
    pub fn find_role_by_id(&self, id: u64) -> (r: Option<Role>)
        ensures
            r is Some <==> exists|i: int| 0 <= i < self.roles@.len() && self.roles@[i].id == id,
            r matches Some(ro) ==> exists|i: int|
                0 <= i < self.roles@.len() && self.roles@[i].id == id
                    && ro.permissions.deep_view() == self.roles@[i].permissions.deep_view()
                    && ro.name@ == self.roles@[i].name@,
    {
        let mut i: usize = 0;
        while i < self.roles.len()
            invariant
                i <= self.roles@.len(),
                forall|k: int| 0 <= k < i ==> self.roles@[k].id != id,
            decreases self.roles@.len() - i,
        {
            if self.roles[i].id == id {
                return Some(self.roles[i].duplicate());
            }
            i = i + 1;
        }
        None
    }

    /// Adds a role. A taken role id is a conflict and changes nothing —
    /// the role table's primary-key behavior.
    pub fn insert_role(&mut self, role: Role) -> (r: Result<(), AppError>)
        requires
            old(self).wf(),
        ensures
            final(self).wf(),
            final(self).users@ == old(self).users@,
            final(self).audit_logs@ == old(self).audit_logs@,
            r is Ok <==> !(exists|i: int|
                0 <= i < old(self).roles@.len() && (#[trigger] old(self).roles@[i]).id == role.id),
            r is Ok ==> final(self).roles@ == old(self).roles@.push(role),
            r matches Err(e) ==> e.status_code == STATUS_CONFLICT && e.message@
                == "Role already exists"@ && final(self).roles@ == old(self).roles@,
    {
        let ghost roles0 = self.roles@;
        let mut i: usize = 0;
        while i < self.roles.len()
            invariant
                self.roles@ == roles0,
                self.users@ == old(self).users@,
                self.audit_logs@ == old(self).audit_logs@,
                unique_emails(self.users@),
                unique_ids(self.users@),
                unique_role_ids(roles0),
                i <= roles0.len(),
                forall|k: int| 0 <= k < i ==> (#[trigger] roles0[k]).id != role.id,
            decreases roles0.len() - i,
        {
            if self.roles[i].id == role.id {
                return Err(
                    AppError {
                        message: String::from_str("Role already exists"),
                        status_code: STATUS_CONFLICT,
                    },
                );
            }
            i = i + 1;
        }
        self.roles.push(role);
        proof {
            assert forall|a: int, b: int|
                0 <= a < b < self.roles@.len() implies self.roles@[a].id != self.roles@[b].id by {
                if b < roles0.len() {
                } else {
                    assert(self.roles@[b] == role);
                    assert(roles0[a].id != role.id);
                }
            }
        }
        Ok(())
    }

    /// Appends one audit record. Records are written once and never
    /// mutated.
    pub fn insert_audit_log(&mut self, entry: AuditLogEntry)
        requires
            old(self).wf(),
        ensures
            final(self).wf(),
            final(self).users@ == old(self).users@,
            final(self).roles@ == old(self).roles@,
            final(self).audit_logs@ == old(self).audit_logs@.push(entry),
    {
        self.audit_logs.push(entry);
    }
}

} // verus!
