//! Data model: the public identity and session types, the stored row types,
//! and the error taxonomy shared by every component.

use vstd::prelude::*;

verus! {

/// Failure taxonomy of the authentication core. Credential mismatch, unknown
/// email and a malformed stored hash all collapse into `InvalidCredentials`
/// so that callers cannot probe which emails are registered.
#[derive(Debug, Clone, PartialEq, Eq, Structural)]
pub enum AuthError {
    /// Bad password, unknown email, or a malformed stored hash.
    InvalidCredentials,
    /// A caller-side precondition was violated (e.g. password too short).
    ValidationFailure,
    /// The email is already bound to an account.
    DuplicateEmail,
    /// The backing store refused a write (e.g. a key collision).
    StorageFailure,
    /// The password hasher itself failed.
    HashingFailure,
}

/// Public identity record: what protected endpoints learn about a logged-in
/// user. Never carries the password hash.
#[derive(Debug, Clone)]
pub struct User {
    pub id: String,
    pub email: String,
    pub display_name: String,
    /// Creation time, as seconds since the Unix epoch. Set once at
    /// registration and never mutated by this core.
    pub created_at: i64,
}

/// An authentication grant: an opaque bearer token bound to a user, valid
/// strictly before its absolute expiry time.
#[derive(Debug, Clone)]
pub struct Session {
    pub token: String,
    pub user_id: String,
    /// Absolute expiry, as seconds since the Unix epoch.
    pub expires_at: i64,
}

/// Decoded body of a registration request.
#[derive(Debug, Clone)]
pub struct RegisterRequest {
    pub email: String,
    pub password: String,
    pub display_name: String,
}

/// Decoded body of a login request.
#[derive(Debug, Clone)]
pub struct LoginRequest {
    pub email: String,
    pub password: String,
}

/// Body of a successful authentication response.
#[derive(Debug, Clone)]
pub struct AuthResponse {
    pub user: User,
}

/// A stored user row: the public identity fields plus the password hash,
/// which never leaves the store.
#[derive(Debug)]
pub struct UserRecord {
    pub id: String,
    pub email: String,
    pub password_hash: String,
    pub display_name: String,
    pub created_at: i64,
}

/// A stored profile row: the 1:1 satellite record created atomically with its
/// user. Its free-form fields are opaque to this core.
#[derive(Debug)]
pub struct ProfileRecord {
    pub id: String,
    pub user_id: String,
}

/// A stored session row.
#[derive(Debug)]
pub struct SessionRecord {
    pub token: String,
    pub user_id: String,
    pub expires_at: i64,
}

/// Least clock reading this core accounts for, in seconds since the Unix
/// epoch: the `time` crate only represents dates in years -9999 through 9999,
/// whose timestamps lie well within these bounds.
pub const CLOCK_MIN: i64 = -400_000_000_000;

/// Greatest clock reading this core accounts for (see [`CLOCK_MIN`]).
pub const CLOCK_MAX: i64 = 400_000_000_000;

/// Relies on `uuid::Uuid::new_v4` and its `Display` rendering: a freshly
/// generated random version-4 UUID in the 36-character hyphenated form.
/// The value is random, so nothing relates two calls; only the shape of a
/// single result is stated.
#[verifier::external_body]
pub(crate) fn fresh_id() -> (r: String)
    ensures
        r@.len() == 36,
{
    uuid::Uuid::new_v4().to_string()
}

/// Relies on `time::OffsetDateTime::now_utc` and `unix_timestamp`: the
/// current wall-clock time as whole seconds since the Unix epoch. The crate
/// represents only dates in years -9999 through 9999, so the reading lies
/// within [`CLOCK_MIN`] and [`CLOCK_MAX`]; nothing more can be promised of
/// a clock.
#[verifier::external_body]
pub(crate) fn clock_now() -> (r: i64)
    ensures
        CLOCK_MIN <= r <= CLOCK_MAX,
{
    time::OffsetDateTime::now_utc().unix_timestamp()
}

impl Session {
    /// Issue a fresh grant for `user_id`: a newly generated unguessable
    /// token, with an absolute expiry a fixed time-to-live past the clock
    /// reading taken at creation. The token is random — in particular it is
    /// not derived from the user or the time — so nothing links it to its
    /// owner but the stored row.
    pub fn new(user_id: String, ttl_hours: i64) -> (s: Session)
        requires
            0 <= ttl_hours,
            ttl_hours <= 2_000_000_000_000,
        ensures
            s.user_id@ == user_id@,
            s.token@.len() == 36,
            CLOCK_MIN <= s.expires_at - ttl_hours * 3600 <= CLOCK_MAX,
    {
        let token = fresh_id();
        let now = clock_now();
        let expires_at = now + ttl_hours * 3600;
        Session { token, user_id, expires_at }
    }
}

impl Clone for UserRecord {
    /// A field-for-field copy of the stored row.
    fn clone(&self) -> (r: Self)
        ensures
            r == *self,
    {
        UserRecord {
            id: self.id.clone(),
            email: self.email.clone(),
            password_hash: self.password_hash.clone(),
            display_name: self.display_name.clone(),
            created_at: self.created_at,
        }
    }
}

impl Clone for ProfileRecord {
    /// A field-for-field copy of the stored row.
    fn clone(&self) -> (r: Self)
        ensures
            r == *self,
    {
        ProfileRecord { id: self.id.clone(), user_id: self.user_id.clone() }
    }
}

impl Clone for SessionRecord {
    /// A field-for-field copy of the stored row.
    fn clone(&self) -> (r: Self)
        ensures
            r == *self,
    {
        SessionRecord {
            token: self.token.clone(),
            user_id: self.user_id.clone(),
            expires_at: self.expires_at,
        }
    }
}

impl UserRecord {
    /// The public view of a stored user: every field except the password hash.
    pub fn to_user(&self) -> (u: User)
        ensures
            u.id@ == self.id@,
            u.email@ == self.email@,
            u.display_name@ == self.display_name@,
            u.created_at == self.created_at,
    {
        User {
            id: self.id.clone(),
            email: self.email.clone(),
            display_name: self.display_name.clone(),
            created_at: self.created_at,
        }
    }
}

} // verus!
