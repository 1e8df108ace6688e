//! The authentication components: the credential hasher, the session
//! issuer/revoker, the account registrar, the authenticator and the identity
//! resolver, each stated and proved over the store model of `store`.
//!
//! The anti-enumeration policy is part of the contracts: an unknown email, a
//! wrong password and a malformed stored hash all fail with exactly
//! `AuthError::InvalidCredentials`.

use vstd::prelude::*;
use vstd::string::StrSliceExecFns;

use crate::models::{
    AuthError, LoginRequest, ProfileRecord, RegisterRequest, Session, SessionRecord, User,
    UserRecord, clock_now, fresh_id, CLOCK_MAX, CLOCK_MIN,
};
use crate::store::{
    has_profile_with_id, has_session_with_token, has_user_with_email, has_user_with_id,
    identity_of, unchanged, valid_session_for, Db,
};

use argon2::{Argon2, PasswordHash, PasswordHasher, PasswordVerifier};

verus! {

/// Fixed time-to-live of a freshly issued session.
pub const SESSION_TTL_HOURS: i64 = 24;

/// Shortest password the registrar accepts.
pub const MIN_PASSWORD_CHARS: usize = 8;

/// Whether Argon2 verification of `password` against the self-describing
/// stored string `phc_hash` succeeds. Recomputing the digest from the salt
/// and parameters embedded in `phc_hash` is deterministic in the two
/// arguments, so the outcome is a function of them alone; a string that does
/// not parse as a PHC hash matches no password at all.
pub uninterp spec fn hash_matches(password: Seq<char>, phc_hash: Seq<char>) -> bool;

/// Relies on `argon2::PasswordHash::new` and
/// `argon2::Argon2::verify_password`: parse the stored PHC string, recompute
/// the digest for `password` with the embedded salt and parameters, and
/// compare in constant time. A parse failure is a mismatch like any other.
#[verifier::external_body]
fn argon2_verify(password: &str, phc_hash: &str) -> (r: bool)
    ensures
        r == hash_matches(password@, phc_hash@),
{
    match PasswordHash::new(phc_hash) {
        Ok(parsed) => Argon2::default().verify_password(password.as_bytes(), &parsed).is_ok(),
        Err(_) => false,
    }
}

/// Relies on `argon2::Argon2::hash_password`: derive an Argon2id digest of
/// the password under a freshly generated random 16-byte salt and return the
/// self-describing PHC string (algorithm, parameters, salt and digest), so
/// that verification needs no side channel. Such a string verifies the
/// hashed password, and — hash collisions being excluded by design — no
/// other. The salt is random, so nothing relates two calls on one password.
#[verifier::external_body]
fn argon2_hash(password: &str) -> (r: Option<String>)
    ensures
        r matches Some(h) ==> (forall|q: Seq<char>| hash_matches(q, h@) <==> q == password@),
{
    Argon2::default().hash_password(password.as_bytes()).ok().map(|h| h.to_string())
}

/// Derive a storable, randomized, self-describing hash of `password`. Two
/// calls on the same password produce different strings (the salt is fresh),
/// and each output verifies exactly the password it was derived from.
///
/// Minimum-length enforcement is the caller's concern, stated here as the
/// precondition the registrar establishes before hashing.
pub fn hash_password(password: &str) -> (r: Result<String, AuthError>)
    requires
        password@.len() >= MIN_PASSWORD_CHARS,
    ensures
        r matches Ok(h) ==> (forall|q: Seq<char>| hash_matches(q, h@) <==> q == password@),
        r matches Err(e) ==> e == AuthError::HashingFailure,
{
    match argon2_hash(password) {
        Some(h) => Ok(h),
        None => Err(AuthError::HashingFailure),
    }
}

/// Verify `password` against a stored hash. Succeeds exactly when the hash
/// matches; a malformed stored hash fails with the same generic
/// `InvalidCredentials` as a wrong password, so callers learn nothing from
/// the failure's shape.
pub fn verify_password(password: &str, phc_hash: &str) -> (r: Result<(), AuthError>)
    ensures
        r is Ok <==> hash_matches(password@, phc_hash@),
        r matches Err(e) ==> e == AuthError::InvalidCredentials,
{
    if argon2_verify(password, phc_hash) {
        Ok(())
    } else {
        Err(AuthError::InvalidCredentials)
    }
}

/// The submitted credentials identify a stored account: some user row bears
/// the email and its stored hash matches the password.
pub open spec fn credentials_match(
    users: Seq<UserRecord>,
    email: Seq<char>,
    password: Seq<char>,
) -> bool {
    exists|i: int|
        0 <= i < users.len() && users[i].email@ == email && hash_matches(
            password,
            users[i].password_hash@,
        )
}

/// Issue a session for `user_id`: generate a fresh random token, compute the
/// expiry one fixed time-to-live past the current instant, and store the
/// row. A token collision fails loudly rather than overwrite, and a session
/// is never issued for an unknown user.
pub fn create_session(db: &mut Db, user_id: &String) -> (r: Result<Session, AuthError>)
    requires
        old(db).wf(),
    ensures
        final(db).wf(),
        final(db).users@ == old(db).users@,
        final(db).profiles@ == old(db).profiles@,
        !has_user_with_id(old(db).users@, user_id@) ==> r is Err,
        r matches Err(e) ==> e == AuthError::StorageFailure && final(db).sessions@ == old(
            db,
        ).sessions@,
        r matches Ok(s) ==> {
            &&& s.user_id@ == user_id@
            &&& s.token@.len() == 36
            &&& !has_session_with_token(old(db).sessions@, s.token@)
            &&& has_user_with_id(old(db).users@, user_id@)
            &&& final(db).sessions@ == old(db).sessions@.push(
                (SessionRecord {
                    token: s.token,
                    user_id: s.user_id,
                    expires_at: s.expires_at,
                }),
            )
            &&& CLOCK_MIN <= s.expires_at - SESSION_TTL_HOURS * 3600 <= CLOCK_MAX
        },
{
    let session = Session::new(user_id.clone(), SESSION_TTL_HOURS);
    let srec = SessionRecord {
        token: session.token.clone(),
        user_id: session.user_id.clone(),
        expires_at: session.expires_at,
    };
    match db.insert_session(srec) {
        Ok(()) => Ok(session),
        Err(e) => Err(e),
    }
}

/// Revoke the session named by the incoming token, if one came at all.
/// No token is a no-op success (already logged out); a present token's rows
/// are deleted whether or not any exist — logout is idempotent and never an
/// error.
pub fn clear_session(db: &mut Db, token: Option<&String>)
    requires
        old(db).wf(),
    ensures
        final(db).wf(),
        final(db).users@ == old(db).users@,
        final(db).profiles@ == old(db).profiles@,
        match token {
            None => final(db).sessions@ == old(db).sessions@,
            Some(t) => final(db).sessions@ == crate::store::remove_token(old(db).sessions@, t@)
                && !has_session_with_token(final(db).sessions@, t@) && (forall|at: i64|
                !valid_session_for(final(db).sessions@, t@, at)),
        },
{
    match token {
        None => (),
        Some(t) => {
            db.delete_by_token(t);
            proof {
                assert forall|at: i64| !valid_session_for(db.sessions@, t@, at) by {
                    crate::store::lemma_revocation(old(db).sessions@, t@, at);
                }
            }
        },
    }
}

/// Resolve the current identity: nothing if no token came, nothing if the
/// token names no stored, unexpired session — the two are indistinguishable
/// to the caller, both simply "not logged in" — and otherwise the owning
/// user's public fields, never the password hash.
pub fn current_user(db: &Db, token: Option<&String>, now: i64) -> (r: Option<User>)
    requires
        db.wf(),
    ensures
        match token {
            None => r is None,
            Some(t) => (r is Some <==> valid_session_for(db.sessions@, t@, now)) && (match r {
                Some(u) => identity_of(*db, t@, now, u),
                None => true,
            }),
        },
{
    match token {
        None => None,
        Some(t) => db.resolve_identity(t, now),
    }
}

/// The deterministic heart of registration, taking the generated ids, the
/// derived hash and the clock reading as arguments: write the user row and
/// its profile row in one atomic step, then issue the session. Exactly one
/// outcome per input: a stored email is a duplicate; a colliding generated
/// id fails as a storage error with nothing written; a colliding session
/// token fails as a storage error after the account rows are committed; and
/// otherwise the account and session are created.
pub fn register_core(
    db: &mut Db,
    email: &String,
    password_hash: &String,
    display_name: &String,
    user_id: &String,
    profile_id: &String,
    token: &String,
    now: i64,
) -> (r: Result<(User, Session), AuthError>)
    requires
        old(db).wf(),
        CLOCK_MIN <= now <= CLOCK_MAX,
    ensures
        final(db).wf(),
        ({
            let dup = has_user_with_email(old(db).users@, email@);
            let uid_taken = has_user_with_id(old(db).users@, user_id@);
            let pid_taken = has_profile_with_id(old(db).profiles@, profile_id@);
            let tok_taken = has_session_with_token(old(db).sessions@, token@);
            &&& (r is Ok <==> (!dup && !uid_taken && !pid_taken && !tok_taken))
            &&& (r matches Err(e) ==> (e == AuthError::DuplicateEmail || e
                == AuthError::StorageFailure))
            &&& ((r matches Err(e) && e == AuthError::DuplicateEmail) <==> dup)
            &&& (dup ==> unchanged(*old(db), *final(db)))
            &&& (!dup && (uid_taken || pid_taken) ==> unchanged(*old(db), *final(db)))
            &&& (!dup && !uid_taken && !pid_taken ==> {
                &&& final(db).users@.len() == old(db).users@.len() + 1
                &&& final(db).users@.drop_last() == old(db).users@
                &&& final(db).users@.last().id@ == user_id@
                &&& final(db).users@.last().email@ == email@
                &&& final(db).users@.last().password_hash@ == password_hash@
                &&& final(db).users@.last().display_name@ == display_name@
                &&& final(db).users@.last().created_at == now
                &&& final(db).profiles@.len() == old(db).profiles@.len() + 1
                &&& final(db).profiles@.drop_last() == old(db).profiles@
                &&& final(db).profiles@.last().id@ == profile_id@
                &&& final(db).profiles@.last().user_id@ == user_id@
            })
            &&& (!dup && !uid_taken && !pid_taken && tok_taken ==> final(db).sessions@ == old(
                db,
            ).sessions@)
            &&& (!dup && !uid_taken && !pid_taken && !tok_taken ==> {
                &&& final(db).sessions@.len() == old(db).sessions@.len() + 1
                &&& final(db).sessions@.drop_last() == old(db).sessions@
                &&& final(db).sessions@.last().token@ == token@
                &&& final(db).sessions@.last().user_id@ == user_id@
                &&& final(db).sessions@.last().expires_at == now + SESSION_TTL_HOURS * 3600
            })
        }),
        r matches Ok(p) ==> {
            &&& p.0.id@ == user_id@
            &&& p.0.email@ == email@
            &&& p.0.display_name@ == display_name@
            &&& p.0.created_at == now
            &&& p.1.token@ == token@
            &&& p.1.user_id@ == user_id@
            &&& p.1.expires_at == now + SESSION_TTL_HOURS * 3600
        },
{
    let user = UserRecord {
        id: user_id.clone(),
        email: email.clone(),
        password_hash: password_hash.clone(),
        display_name: display_name.clone(),
        created_at: now,
    };
    let profile = ProfileRecord { id: profile_id.clone(), user_id: user_id.clone() };
    match db.insert_user_and_profile(user, profile) {
        Ok(()) => (),
        Err(e) => {
            return Err(e);
        },
    }
    proof {
        assert(db.users@.drop_last() =~= old(db).users@);
        assert(db.profiles@.drop_last() =~= old(db).profiles@);
        assert(has_user_with_id(db.users@, user_id@)) by {
            assert(db.users@.last().id@ == user_id@);
        }
    }
    let expires_at = now + SESSION_TTL_HOURS * 3600;
    let srec = SessionRecord {
        token: token.clone(),
        user_id: user_id.clone(),
        expires_at,
    };
    match db.insert_session(srec) {
        Ok(()) => (),
        Err(e) => {
            return Err(e);
        },
    }
    proof {
        assert(db.sessions@.drop_last() =~= old(db).sessions@);
    }
    Ok(
        (
            User {
                id: user_id.clone(),
                email: email.clone(),
                display_name: display_name.clone(),
                created_at: now,
            },
            Session { token: token.clone(), user_id: user_id.clone(), expires_at },
        ),
    )
}

/// Register a new account: validate the password length before any hashing
/// or storage work, derive the randomized hash, and run the atomic
/// account-creation write followed by session issuance. On success the new
/// identity and its session come back; a duplicate email fails as
/// `DuplicateEmail` with nothing written; a short password fails fast as
/// `ValidationFailure`; everything else surfaces as `StorageFailure`.
pub fn register(db: &mut Db, req: &RegisterRequest) -> (r: Result<(User, Session), AuthError>)
    requires
        old(db).wf(),
    ensures
        final(db).wf(),
        ((r matches Err(e) && e == AuthError::ValidationFailure) <==> req.password@.len()
            < MIN_PASSWORD_CHARS),
        req.password@.len() < MIN_PASSWORD_CHARS ==> unchanged(*old(db), *final(db)),
        r matches Err(e) ==> (e == AuthError::ValidationFailure || e == AuthError::DuplicateEmail
            || e == AuthError::StorageFailure),
        (r matches Err(e) && e == AuthError::DuplicateEmail) ==> has_user_with_email(
            old(db).users@,
            req.email@,
        ) && unchanged(*old(db), *final(db)),
        has_user_with_email(old(db).users@, req.email@) ==> r is Err,
        (r matches Err(e) && e == AuthError::StorageFailure) ==> {
            &&& final(db).sessions@ == old(db).sessions@
            &&& ({
                ||| (final(db).users@ == old(db).users@ && final(db).profiles@ == old(
                    db,
                ).profiles@)
                ||| (final(db).users@.len() == old(db).users@.len() + 1
                    && final(db).users@.drop_last() == old(db).users@
                    && final(db).users@.last().email@ == req.email@
                    && final(db).profiles@.len() == old(db).profiles@.len() + 1
                    && final(db).profiles@.drop_last() == old(db).profiles@)
            })
        },
        r is Ok ==> !has_user_with_email(old(db).users@, req.email@),
        r is Ok ==> has_user_with_email(final(db).users@, req.email@),
        r matches Ok(p) ==> {
            &&& final(db).users@.len() == old(db).users@.len() + 1
            &&& final(db).users@.drop_last() == old(db).users@
            &&& final(db).users@.last().id@ == p.0.id@
            &&& final(db).users@.last().email@ == req.email@
            &&& final(db).users@.last().display_name@ == req.display_name@
            &&& final(db).users@.last().created_at == p.0.created_at
            &&& (forall|q: Seq<char>|
                hash_matches(q, final(db).users@.last().password_hash@) <==> q == req.password@)
            &&& final(db).profiles@.len() == old(db).profiles@.len() + 1
            &&& final(db).profiles@.drop_last() == old(db).profiles@
            &&& final(db).profiles@.last().user_id@ == p.0.id@
            &&& final(db).sessions@.len() == old(db).sessions@.len() + 1
            &&& final(db).sessions@.drop_last() == old(db).sessions@
            &&& final(db).sessions@.last().token@ == p.1.token@
            &&& final(db).sessions@.last().user_id@ == p.0.id@
            &&& final(db).sessions@.last().expires_at == p.1.expires_at
            &&& p.0.email@ == req.email@
            &&& p.0.display_name@ == req.display_name@
            &&& p.0.id@.len() == 36
            &&& p.1.token@.len() == 36
            &&& p.1.user_id@ == p.0.id@
            &&& p.1.expires_at == p.0.created_at + SESSION_TTL_HOURS * 3600
            &&& CLOCK_MIN <= p.0.created_at <= CLOCK_MAX
        },
{
    if req.password.as_str().unicode_len() < MIN_PASSWORD_CHARS {
        return Err(AuthError::ValidationFailure);
    }
    let hashed = match hash_password(req.password.as_str()) {
        Ok(h) => h,
        Err(_) => {
            return Err(AuthError::StorageFailure);
        },
    };
    let user_id = fresh_id();
    let profile_id = fresh_id();
    let token = fresh_id();
    let now = clock_now();
    register_core(db, &req.email, &hashed, &req.display_name, &user_id, &profile_id, &token, now)
}

/// Authenticate a submitted credential: look the account up by exact email,
/// verify the password against the stored hash, and on success issue a
/// session and return the identity with the hash stripped. An unknown email
/// and a wrong password fail with the one same `InvalidCredentials`.
pub fn login(db: &mut Db, req: &LoginRequest) -> (r: Result<(User, Session), AuthError>)
    requires
        old(db).wf(),
    ensures
        final(db).wf(),
        final(db).users@ == old(db).users@,
        final(db).profiles@ == old(db).profiles@,
        ((r matches Err(e) && e == AuthError::InvalidCredentials) <==> !credentials_match(
            old(db).users@,
            req.email@,
            req.password@,
        )),
        r matches Err(e) ==> (e == AuthError::InvalidCredentials || e == AuthError::StorageFailure)
            && final(db).sessions@ == old(db).sessions@,
        r matches Ok(p) ==> {
            &&& exists|j: int|
                0 <= j < old(db).users@.len() && old(db).users@[j].email@ == req.email@
                    && hash_matches(req.password@, old(db).users@[j].password_hash@) && p.0.id@
                    == old(db).users@[j].id@ && p.0.email@ == old(db).users@[j].email@
                    && p.0.display_name@ == old(db).users@[j].display_name@ && p.0.created_at == old(
                    db,
                ).users@[j].created_at
            &&& final(db).sessions@.len() == old(db).sessions@.len() + 1
            &&& final(db).sessions@.drop_last() == old(db).sessions@
            &&& final(db).sessions@.last().token@ == p.1.token@
            &&& final(db).sessions@.last().user_id@ == p.0.id@
            &&& final(db).sessions@.last().expires_at == p.1.expires_at
            &&& !has_session_with_token(old(db).sessions@, p.1.token@)
            &&& p.1.user_id@ == p.0.id@
            &&& p.1.token@.len() == 36
            &&& CLOCK_MIN <= p.1.expires_at - SESSION_TTL_HOURS * 3600 <= CLOCK_MAX
        },
{
    let idx = match db.find_user_by_email(&req.email) {
        Some(i) => i,
        None => {
            return Err(AuthError::InvalidCredentials);
        },
    };
    let row = user_row_at(db, idx);
    match verify_password(req.password.as_str(), row.password_hash.as_str()) {
        Ok(()) => (),
        Err(_) => {
            proof {
                // Emails are unique, so the one row bearing the email has
                // the one stored hash, and it does not match.
                assert forall|j: int|
                    0 <= j < db.users@.len() && db.users@[j].email@ == req.email@
                    implies !hash_matches(req.password@, db.users@[j].password_hash@) by {
                    if j != idx {
                        assert(db.users@[j].email@ != db.users@[idx as int].email@);
                    }
                }
            }
            return Err(AuthError::InvalidCredentials);
        },
    }
    proof {
        assert(credentials_match(old(db).users@, req.email@, req.password@)) by {
            assert(old(db).users@[idx as int].email@ == req.email@);
        }
    }
    match create_session(db, &row.id) {
        Ok(s) => {
            proof {
                assert(db.sessions@.drop_last() =~= old(db).sessions@);
            }
            Ok((row.to_user(), s))
        },
        Err(e) => Err(e),
    }
}

/// A copy of the user row at `idx`.
fn user_row_at(db: &Db, idx: usize) -> (r: UserRecord)
    requires
        idx < db.users@.len(),
    ensures
        r == db.users@[idx as int],
{
    db.users[idx].clone()
}

/// Law: a derived hash verifies exactly the password it came from. Whenever
/// a stored hash matches one password and no other — as the hasher's
/// contract states of every hash it produces — verification succeeds for
/// that password and fails for every different one.
pub proof fn lemma_hash_round_trip(p: Seq<char>, q: Seq<char>, h: Seq<char>)
    ensures
        (forall|x: Seq<char>| hash_matches(x, h) <==> x == p) ==> hash_matches(p, h),
        ((forall|x: Seq<char>| hash_matches(x, h) <==> x == p) && q != p) ==> !hash_matches(q, h),
{
}

/// Law: registration binds the email. Appending a user row for an email —
/// as a successful registration does — makes the email present in the
/// store, so an immediately repeated registration of the same email meets
/// the duplicate check and is refused with nothing written.
pub proof fn lemma_duplicate_registration(users: Seq<UserRecord>, u: UserRecord)
    ensures
        has_user_with_email(users.push(u), u.email@),
{
    assert(users.push(u)[users.len() as int] == u);
}

} // verus!
