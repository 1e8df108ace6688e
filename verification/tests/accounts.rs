use auramatch::auth::{login, register};
use auramatch::models::{AuthError, LoginRequest, RegisterRequest};
use auramatch::store::Db;

fn register_request(email: &str, password: &str, display_name: &str) -> RegisterRequest {
    RegisterRequest {
        email: email.to_string(),
        password: password.to_string(),
        display_name: display_name.to_string(),
    }
}

fn login_request(email: &str, password: &str) -> LoginRequest {
    LoginRequest { email: email.to_string(), password: password.to_string() }
}

#[test]
fn register_creates_user_profile_and_session() {
    let mut db = Db::new();
    let (user, session) = register(&mut db, &register_request("a@x.com", "longenough1", "A"))
        .expect("registration should succeed");
    assert_eq!(user.email, "a@x.com");
    assert_eq!(user.display_name, "A");
    assert_eq!(user.id.len(), 36);
    assert_eq!(session.user_id, user.id);
    assert_eq!(session.token.len(), 36);
    assert_eq!(db.users.len(), 1);
    assert_eq!(db.profiles.len(), 1);
    assert_eq!(db.sessions.len(), 1);
    assert_eq!(db.profiles[0].user_id, user.id);
    assert_eq!(db.sessions[0].token, session.token);
}

#[test]
fn short_password_fails_fast() {
    let mut db = Db::new();
    let r = register(&mut db, &register_request("a@x.com", "short", "A"));
    assert_eq!(r.unwrap_err(), AuthError::ValidationFailure);
    assert_eq!(db.users.len(), 0);
    assert_eq!(db.profiles.len(), 0);
    assert_eq!(db.sessions.len(), 0);
}

#[test]
fn duplicate_email_fails_and_writes_nothing() {
    let mut db = Db::new();
    register(&mut db, &register_request("a@x.com", "longenough1", "A"))
        .expect("first registration should succeed");
    let second = register(&mut db, &register_request("a@x.com", "otherlongpw2", "B"));
    assert_eq!(second.unwrap_err(), AuthError::DuplicateEmail);
    assert_eq!(db.users.len(), 1);
    assert_eq!(db.profiles.len(), 1);
    assert_eq!(db.users[0].display_name, "A");
}

#[test]
fn login_succeeds_with_registered_credentials() {
    let mut db = Db::new();
    let (user, _) = register(&mut db, &register_request("a@x.com", "longenough1", "A"))
        .expect("registration should succeed");
    let (found, session) = login(&mut db, &login_request("a@x.com", "longenough1"))
        .expect("login should succeed");
    assert_eq!(found.id, user.id);
    assert_eq!(found.email, "a@x.com");
    assert_eq!(session.user_id, user.id);
    assert_eq!(db.sessions.len(), 2);
}

#[test]
fn login_rejects_wrong_password() {
    let mut db = Db::new();
    register(&mut db, &register_request("a@x.com", "longenough1", "A"))
        .expect("registration should succeed");
    let r = login(&mut db, &login_request("a@x.com", "wrongpassword"));
    assert_eq!(r.unwrap_err(), AuthError::InvalidCredentials);
}

#[test]
fn unknown_email_fails_like_wrong_password() {
    let mut db = Db::new();
    register(&mut db, &register_request("a@x.com", "longenough1", "A"))
        .expect("registration should succeed");
    let unknown = login(&mut db, &login_request("b@x.com", "longenough1"));
    let wrong = login(&mut db, &login_request("a@x.com", "wrongpassword"));
    assert_eq!(unknown.unwrap_err(), wrong.unwrap_err());
}

#[test]
fn email_match_is_exact() {
    let mut db = Db::new();
    register(&mut db, &register_request("a@x.com", "longenough1", "A"))
        .expect("registration should succeed");
    let r = login(&mut db, &login_request("A@X.COM", "longenough1"));
    assert_eq!(r.unwrap_err(), AuthError::InvalidCredentials);
}

#[test]
fn returned_identity_never_carries_the_hash() {
    let mut db = Db::new();
    let (user, _) = register(&mut db, &register_request("a@x.com", "longenough1", "A"))
        .expect("registration should succeed");
    // The stored row holds the derived hash; the identity handed out holds
    // only the public fields, none of which is the hash or the password.
    let stored = &db.users[0];
    assert!(stored.password_hash.starts_with("$argon2"));
    assert_ne!(user.id, stored.password_hash);
    assert_ne!(user.email, stored.password_hash);
    assert_ne!(user.display_name, stored.password_hash);
}
