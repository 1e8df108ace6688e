use auramatch::auth::{clear_session, create_session, current_user, register, SESSION_TTL_HOURS};
use auramatch::models::{AuthError, RegisterRequest, Session, SessionRecord, UserRecord};
use auramatch::store::Db;

fn register_request(email: &str, password: &str, display_name: &str) -> RegisterRequest {
    RegisterRequest {
        email: email.to_string(),
        password: password.to_string(),
        display_name: display_name.to_string(),
    }
}

fn user_row(id: &str, email: &str) -> UserRecord {
    UserRecord {
        id: id.to_string(),
        email: email.to_string(),
        password_hash: "$argon2id$unused".to_string(),
        display_name: "U".to_string(),
        created_at: 50,
    }
}

#[test]
fn fresh_session_resolves_to_its_owner() {
    let mut db = Db::new();
    let (user, session) = register(&mut db, &register_request("a@x.com", "longenough1", "A"))
        .expect("registration should succeed");
    let resolved = current_user(&db, Some(&session.token), user.created_at)
        .expect("a fresh session should resolve");
    assert_eq!(resolved.id, user.id);
    assert_eq!(resolved.email, user.email);
    assert_eq!(resolved.display_name, user.display_name);
    assert_eq!(resolved.created_at, user.created_at);
}

#[test]
fn absent_token_resolves_to_none() {
    let mut db = Db::new();
    register(&mut db, &register_request("a@x.com", "longenough1", "A"))
        .expect("registration should succeed");
    assert!(current_user(&db, None, 0).is_none());
}

#[test]
fn unknown_token_resolves_to_none() {
    let mut db = Db::new();
    register(&mut db, &register_request("a@x.com", "longenough1", "A"))
        .expect("registration should succeed");
    let stray = "0000-not-a-token".to_string();
    assert!(current_user(&db, Some(&stray), 0).is_none());
}

#[test]
fn expired_session_is_never_an_identity() {
    // The row is still stored, but its expiry is in the past.
    let mut db = Db::new();
    db.users.push(user_row("u-1", "a@x.com"));
    db.sessions.push(SessionRecord {
        token: "tok-1".to_string(),
        user_id: "u-1".to_string(),
        expires_at: 100,
    });
    let token = "tok-1".to_string();
    assert!(db.resolve_identity(&token, 100).is_none());
    assert!(db.resolve_identity(&token, 200).is_none());
    assert!(current_user(&db, Some(&token), 1_000_000).is_none());
    assert_eq!(db.sessions.len(), 1);
    // Strictly before the expiry the same row still grants the identity.
    let alive = db.resolve_identity(&token, 99).expect("valid before expiry");
    assert_eq!(alive.id, "u-1");
}

#[test]
fn logout_revokes_and_is_idempotent() {
    let mut db = Db::new();
    let (user, session) = register(&mut db, &register_request("a@x.com", "longenough1", "A"))
        .expect("registration should succeed");
    clear_session(&mut db, Some(&session.token));
    assert!(current_user(&db, Some(&session.token), user.created_at).is_none());
    assert_eq!(db.sessions.len(), 0);
    // Logging out again with the now-cleared token is still a success.
    clear_session(&mut db, Some(&session.token));
    assert_eq!(db.sessions.len(), 0);
    assert_eq!(db.users.len(), 1);
}

#[test]
fn logout_without_token_is_a_no_op_success() {
    let mut db = Db::new();
    register(&mut db, &register_request("a@x.com", "longenough1", "A"))
        .expect("registration should succeed");
    clear_session(&mut db, None);
    assert_eq!(db.sessions.len(), 1);
}

#[test]
fn issued_tokens_are_fresh_and_scoped_to_the_user() {
    let mut db = Db::new();
    db.users.push(user_row("u-1", "a@x.com"));
    let user_id = "u-1".to_string();
    let s1 = create_session(&mut db, &user_id).expect("issuance should succeed");
    let s2 = create_session(&mut db, &user_id).expect("issuance should succeed");
    assert_ne!(s1.token, s2.token);
    assert_eq!(s1.token.len(), 36);
    assert_eq!(s1.user_id, "u-1");
    assert_eq!(db.sessions.len(), 2);
}

#[test]
fn session_for_unknown_user_is_refused() {
    let mut db = Db::new();
    let user_id = "nobody".to_string();
    let r = create_session(&mut db, &user_id);
    assert_eq!(r.unwrap_err(), AuthError::StorageFailure);
    assert_eq!(db.sessions.len(), 0);
}

#[test]
fn token_collision_fails_loudly() {
    let mut db = Db::new();
    db.users.push(user_row("u-1", "a@x.com"));
    let row = SessionRecord {
        token: "tok-1".to_string(),
        user_id: "u-1".to_string(),
        expires_at: 100,
    };
    assert!(db.insert_session(row).is_ok());
    let clash = SessionRecord {
        token: "tok-1".to_string(),
        user_id: "u-1".to_string(),
        expires_at: 999,
    };
    assert_eq!(db.insert_session(clash).unwrap_err(), AuthError::StorageFailure);
    assert_eq!(db.sessions.len(), 1);
    assert_eq!(db.sessions[0].expires_at, 100);
}

#[test]
fn new_session_expiry_is_one_ttl_ahead() {
    let s = Session::new("u-1".to_string(), SESSION_TTL_HOURS);
    // The clock read at issuance is "now": the expiry lies a day ahead of a
    // recent instant (this test was written well after 2020).
    let issued_at = s.expires_at - SESSION_TTL_HOURS * 3600;
    assert!(issued_at > 1_577_836_800, "issued_at = {issued_at}");
    assert_eq!(s.user_id, "u-1");
    assert_eq!(s.token.len(), 36);
}
