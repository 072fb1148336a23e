//! Users: registration, login, and coalesce-style partial update.
//!
//! The datastore's user table is modelled as a sequence of `User` records
//! whose well-formedness captures the table's constraints: ids are unique,
//! and the email is the unique lookup key for login. Every flow here keeps
//! the stored password a hash — plaintext never survives past the hashing
//! step — and reports a wrong password and an unknown email identically.

use vstd::prelude::*;

use crate::credential;
use crate::credential::bcrypt_accepts;
use crate::errors::AuthError;
use crate::session::AuthSession;
use crate::token::SESSION_LIFETIME_SECS;
use crate::token::TokenIssuer;
use crate::token::token_of;

verus! {

/// A stored user record. `password` holds the bcrypt hash of the user's
/// password, never the plaintext; `created_at` is seconds since the Unix
/// epoch, absent for rows predating that column.
#[derive(Clone, Debug)]
pub struct User {
    pub id: i32,
    pub name: String,
    pub email: String,
    pub password: String,
    pub created_at: Option<i64>,
}

/// A registration request: the only place a plaintext password enters, and
/// it leaves only as a hash.
pub struct RegisterRequest {
    pub name: String,
    pub email: String,
    pub password: String,
}

/// A login attempt.
pub struct LoginRequest {
    pub email: String,
    pub password: String,
}

/// What a successful login hands back: the user's id and a signed session
/// token — never the stored password hash.
#[derive(Clone, Debug, PartialEq, Eq)]
pub struct LoginResponse {
    pub user_id: i32,
    pub token: String,
}

/// A partial update of a user: any field left unset keeps its stored value.
pub struct UpdateUserRequest {
    pub name: Option<String>,
    pub email: Option<String>,
    pub password: Option<String>,
}

/// The user table's constraints: ids are unique and emails are unique.
pub open spec fn wf_users(rows: Seq<User>) -> bool {
    forall|i: int, j: int|
        0 <= i < rows.len() && 0 <= j < rows.len() && i != j ==> ((#[trigger] rows[i]).id != (
        #[trigger] rows[j]).id && rows[i].email@ != rows[j].email@)
}

/// Some row carries this email.
pub open spec fn has_email(rows: Seq<User>, email: Seq<char>) -> bool {
    exists|i: int| 0 <= i < rows.len() && (#[trigger] rows[i]).email@ == email
}

/// Some row carries this id.
pub open spec fn has_user_id(rows: Seq<User>, id: i32) -> bool {
    exists|i: int| 0 <= i < rows.len() && (#[trigger] rows[i]).id == id
}

/// No row carries this id yet, so the datastore may assign it to a new row.
pub open spec fn fresh_user_id(rows: Seq<User>, id: i32) -> bool {
    forall|i: int| 0 <= i < rows.len() ==> (#[trigger] rows[i]).id != id
}

/// A row other than the one with id `id` carries this email.
pub open spec fn email_taken_by_other(rows: Seq<User>, id: i32, email: Seq<char>) -> bool {
    exists|i: int|
        0 <= i < rows.len() && (#[trigger] rows[i]).id != id && rows[i].email@ == email
}

/// Relies on str's PartialEq: two string slices are equal exactly when
/// their characters are.
#[verifier::external_body]
fn str_eq(a: &str, b: &str) -> (r: bool)
    ensures
        r == (a@ == b@),
{
    a == b
}

/// Looks a user up by email, the unique login key.
pub fn find_user_by_email(rows: &Vec<User>, email: &str) -> (r: Option<usize>)
    ensures
        match r {
            Some(i) => i < rows@.len() && rows@[i as int].email@ == email@,
            None => !has_email(rows@, email@),
        },
{
    let mut i: usize = 0;
    while i < rows.len()
        invariant
            i <= rows@.len(),
            forall|j: int| 0 <= j < i ==> (#[trigger] rows@[j]).email@ != email@,
        decreases rows@.len() - i,
    {
        if str_eq(rows[i].email.as_str(), email) {
            return Some(i);
        }
        i = i + 1;
    }
    None
}

/// Looks a user up by id.
pub fn find_user_by_id(rows: &Vec<User>, id: i32) -> (r: Option<usize>)
    ensures
        match r {
            Some(i) => i < rows@.len() && rows@[i as int].id == id,
            None => !has_user_id(rows@, id),
        },
{
    let mut i: usize = 0;
    while i < rows.len()
        invariant
            i <= rows@.len(),
            forall|j: int| 0 <= j < i ==> (#[trigger] rows@[j]).id != id,
        decreases rows@.len() - i,
    {
        if rows[i].id == id {
            return Some(i);
        }
        i = i + 1;
    }
    None
}

/// Whether some row other than the one with id `id` already carries
/// `email`: the check behind the table's unique-email constraint.
fn email_conflict(rows: &Vec<User>, id: i32, email: &str) -> (r: bool)
    ensures
        r == email_taken_by_other(rows@, id, email@),
{
    let mut i: usize = 0;
    while i < rows.len()
        invariant
            i <= rows@.len(),
            forall|j: int|
                0 <= j < i ==> !((#[trigger] rows@[j]).id != id && rows@[j].email@ == email@),
        decreases rows@.len() - i,
    {
        if rows[i].id != id && str_eq(rows[i].email.as_str(), email) {
            return true;
        }
        i = i + 1;
    }
    false
}

/// Registers a new user: hashes the password and stores the record.
///
/// A duplicate email is the datastore's unique-key violation and surfaces
/// as the opaque `StoreUnavailable`; a failed hash aborts the registration
/// (`HashingFailure`) so that no plaintext is ever stored. Otherwise the
/// new row is appended verbatim, with the hash in place of the password.
pub fn register(rows: &mut Vec<User>, req: RegisterRequest, new_id: i32, now: i64) -> (r: Result<
    (),
    AuthError,
>)
    requires
        wf_users(old(rows)@),
        fresh_user_id(old(rows)@, new_id),
    ensures
        wf_users(final(rows)@),
        r matches Err(_) ==> final(rows)@ == old(rows)@,
        (r == Err::<(), AuthError>(AuthError::StoreUnavailable)) <==> has_email(
            old(rows)@,
            req.email@,
        ),
        r matches Err(e) ==> (e == AuthError::StoreUnavailable || e == AuthError::HashingFailure),
        r matches Ok(()) ==> ({
            &&& final(rows)@.len() == old(rows)@.len() + 1
            &&& final(rows)@ == old(rows)@.push(final(rows)@[old(rows)@.len() as int])
            &&& final(rows)@[old(rows)@.len() as int].id == new_id
            &&& final(rows)@[old(rows)@.len() as int].name == req.name
            &&& final(rows)@[old(rows)@.len() as int].email == req.email
            &&& bcrypt_accepts(req.password@, final(rows)@[old(rows)@.len() as int].password@)
            &&& final(rows)@[old(rows)@.len() as int].created_at == Some(now)
        }),
{
    if find_user_by_email(rows, req.email.as_str()).is_some() {
        return Err(AuthError::StoreUnavailable);
    }
    let hashed = match credential::hash(req.password.as_str()) {
        Ok(h) => h,
        Err(e) => { return Err(e); },
    };
    let ghost prev = rows@;
    let user = User {
        id: new_id,
        name: req.name,
        email: req.email,
        password: hashed,
        created_at: Some(now),
    };
    rows.push(user);
    proof {
        assert forall|i: int, j: int|
            0 <= i < rows@.len() && 0 <= j < rows@.len() && i != j implies ((#[trigger] rows@[i]).id
            != (#[trigger] rows@[j]).id && rows@[i].email@ != rows@[j].email@) by {
            if i < prev.len() && j < prev.len() {
                assert(wf_users(prev));
            } else if j == prev.len() {
                assert(rows@[i] == prev[i]);
                if rows@[i].email@ == req.email@ {
                    assert(has_email(prev, req.email@));
                }
            } else {
                assert(rows@[j] == prev[j]);
                if rows@[j].email@ == req.email@ {
                    assert(has_email(prev, req.email@));
                }
            }
        }
    }
    Ok(())
}

/// Whether a login attempt with this password must be rejected, given what
/// the by-email lookup produced: the email is unknown, or the password does
/// not verify against the stored hash.
pub open spec fn login_rejects(found: Option<User>, password: Seq<char>) -> bool {
    match found {
        None => true,
        Some(u) => !bcrypt_accepts(password, u.password@),
    }
}

/// Logs a user in, given the outcome of the datastore's by-email lookup.
///
/// A rejected attempt — unknown email or wrong password alike — yields the
/// one `CredentialMismatch` outcome, so the two are observably identical;
/// no other failure exists. An accepted attempt always succeeds and yields
/// the user's id and a token signing exactly that identity with
/// `exp = now + SESSION_LIFETIME_SECS`. The response never carries the
/// stored hash.
pub fn login(found: Option<User>, req: &LoginRequest, issuer: &TokenIssuer, now: u64) -> (r: Result<
    LoginResponse,
    AuthError,
>)
    requires
        now + SESSION_LIFETIME_SECS <= u64::MAX,
    ensures
        (r == Err::<LoginResponse, AuthError>(AuthError::CredentialMismatch)) <==> login_rejects(
            found,
            req.password@,
        ),
        r matches Err(e) ==> e == AuthError::CredentialMismatch,
        !login_rejects(found, req.password@) ==> (found matches Some(u) && (r matches Ok(resp)
            && resp.user_id == u.id && resp.token@ == token_of(
            u.id as int,
            u.email@,
            u.name@,
            now + SESSION_LIFETIME_SECS,
            issuer.secret(),
        ))),
{
    match found {
        None => Err(AuthError::CredentialMismatch),
        Some(u) => {
            if credential::verify(req.password.as_str(), u.password.as_str()) {
                let token = issuer.issue(u.id, u.email.as_str(), u.name.as_str(), now);
                Ok(LoginResponse { user_id: u.id, token })
            } else {
                Err(AuthError::CredentialMismatch)
            }
        },
    }
}

/// Law: login failures are uniform. An attempt against a known user with a
/// password the stored hash rejects, and an attempt with an email no row
/// carries, are both rejected — and `login` maps every rejection to the
/// same `CredentialMismatch` outcome, so the two cases are observably
/// identical to the caller.
pub proof fn lemma_login_failure_uniform(u: User, wrong_password: Seq<char>, any_password: Seq<char>)
    requires
        !bcrypt_accepts(wrong_password, u.password@),
    ensures
        login_rejects(Some(u), wrong_password),
        login_rejects(None::<User>, any_password),
{
}

/// The coalesce merge of a partial update into a stored user: every field
/// the request leaves unset keeps its stored value, the id and creation
/// time never change, and a requested password lands only as a hash that
/// verifies against the requested plaintext.
pub open spec fn user_patched(before: User, after: User, req: UpdateUserRequest) -> bool {
    &&& after.id == before.id
    &&& after.created_at == before.created_at
    &&& match req.name {
        Some(n) => after.name == n,
        None => after.name == before.name,
    }
    &&& match req.email {
        Some(e) => after.email == e,
        None => after.email == before.email,
    }
    &&& match req.password {
        Some(p) => bcrypt_accepts(p@, after.password@),
        None => after.password == before.password,
    }
}

/// Applies a partial update to the user the session identifies — the id
/// comes from the validated session, never from the request.
///
/// The row is rewritten in place by coalesce merge (`user_patched`); all
/// other rows are untouched. A session whose user is not stored is denied
/// like any unauthorized mutation; an email another row already carries is
/// the unique-key violation (`StoreUnavailable`); a failed hash aborts the
/// update (`HashingFailure`) before anything is written.
pub fn update_user(rows: &mut Vec<User>, session: &AuthSession, req: UpdateUserRequest) -> (r:
    Result<(), AuthError>)
    requires
        wf_users(old(rows)@),
    ensures
        wf_users(final(rows)@),
        r matches Err(_) ==> final(rows)@ == old(rows)@,
        (r == Err::<(), AuthError>(AuthError::OwnershipDenied)) <==> !has_user_id(
            old(rows)@,
            session.user_id,
        ),
        (r == Err::<(), AuthError>(AuthError::StoreUnavailable)) <==> (has_user_id(
            old(rows)@,
            session.user_id,
        ) && (req.email matches Some(e) && email_taken_by_other(
            old(rows)@,
            session.user_id,
            e@,
        ))),
        r matches Err(e) ==> (e == AuthError::OwnershipDenied || e == AuthError::StoreUnavailable
            || e == AuthError::HashingFailure),
        r matches Err(e) ==> (e != AuthError::HashingFailure || req.password is Some),
        (has_user_id(old(rows)@, session.user_id) && !(req.email matches Some(e)
            && email_taken_by_other(old(rows)@, session.user_id, e@)) && req.password is None)
            ==> r is Ok,
        r matches Ok(()) ==> exists|i: int|
            0 <= i < old(rows)@.len() && (#[trigger] old(rows)@[i]).id == session.user_id
                && final(rows)@ == old(rows)@.update(i, final(rows)@[i]) && user_patched(
                old(rows)@[i],
                final(rows)@[i],
                req,
            ),
{
    let idx = match find_user_by_id(rows, session.user_id) {
        Some(i) => i,
        None => { return Err(AuthError::OwnershipDenied); },
    };
    if let Some(e) = &req.email {
        if email_conflict(rows, session.user_id, e.as_str()) {
            return Err(AuthError::StoreUnavailable);
        }
    }
    let new_password: Option<String> = match &req.password {
        Some(p) => match credential::hash(p.as_str()) {
            Ok(h) => Some(h),
            Err(e) => { return Err(e); },
        },
        None => None,
    };
    let ghost prev = rows@;
    let ghost gidx = idx as int;
    let before = rows.remove(idx);
    let after = User {
        id: before.id,
        name: match req.name {
            Some(n) => n,
            None => before.name,
        },
        email: match req.email {
            Some(e) => e,
            None => before.email,
        },
        password: match new_password {
            Some(h) => h,
            None => before.password,
        },
        created_at: before.created_at,
    };
    rows.insert(idx, after);
    proof {
        assert(rows@ =~= prev.update(gidx, rows@[gidx]));
        assert(user_patched(prev[gidx], rows@[gidx], req));
        assert forall|i: int, j: int|
            0 <= i < rows@.len() && 0 <= j < rows@.len() && i != j implies ((#[trigger] rows@[i]).id
            != (#[trigger] rows@[j]).id && rows@[i].email@ != rows@[j].email@) by {
            assert(wf_users(prev));
            if i != gidx && j != gidx {
                assert(rows@[i] == prev[i] && rows@[j] == prev[j]);
            } else if i == gidx {
                assert(rows@[j] == prev[j]);
                assert(rows@[i].id == prev[i].id);
                if rows@[i].email@ == rows@[j].email@ {
                    assert(email_taken_by_other(prev, session.user_id, rows@[i].email@));
                }
            } else {
                assert(rows@[i] == prev[i]);
                assert(rows@[j].id == prev[j].id);
                if rows@[i].email@ == rows@[j].email@ {
                    assert(email_taken_by_other(prev, session.user_id, rows@[j].email@));
                }
            }
        }
    }
    Ok(())
}

} // verus!
