use auramatch::models::{AuthError, ProfileRecord, UserRecord};
use auramatch::store::Db;

fn user_row(id: &str, email: &str) -> UserRecord {
    UserRecord {
        id: id.to_string(),
        email: email.to_string(),
        password_hash: "$argon2id$unused".to_string(),
        display_name: "U".to_string(),
        created_at: 50,
    }
}

fn profile_row(id: &str, user_id: &str) -> ProfileRecord {
    ProfileRecord { id: id.to_string(), user_id: user_id.to_string() }
}

#[test]
fn user_and_profile_go_in_together() {
    let mut db = Db::new();
    db.insert_user_and_profile(user_row("u-1", "a@x.com"), profile_row("p-1", "u-1"))
        .expect("the first write should succeed");
    assert_eq!(db.users.len(), 1);
    assert_eq!(db.profiles.len(), 1);
    assert_eq!(db.profiles[0].user_id, "u-1");
}

#[test]
fn duplicate_email_aborts_the_whole_write() {
    let mut db = Db::new();
    db.insert_user_and_profile(user_row("u-1", "a@x.com"), profile_row("p-1", "u-1"))
        .expect("the first write should succeed");
    let r = db.insert_user_and_profile(user_row("u-2", "a@x.com"), profile_row("p-2", "u-2"));
    assert_eq!(r.unwrap_err(), AuthError::DuplicateEmail);
    assert_eq!(db.users.len(), 1);
    assert_eq!(db.profiles.len(), 1);
}

#[test]
fn key_collision_aborts_as_storage_failure_with_no_orphan() {
    let mut db = Db::new();
    db.insert_user_and_profile(user_row("u-1", "a@x.com"), profile_row("p-1", "u-1"))
        .expect("the first write should succeed");
    // Same profile key, fresh user key and email: the user row must not be
    // committed on its own when the profile insert is refused.
    let r = db.insert_user_and_profile(user_row("u-2", "b@x.com"), profile_row("p-1", "u-2"));
    assert_eq!(r.unwrap_err(), AuthError::StorageFailure);
    assert_eq!(db.users.len(), 1);
    assert_eq!(db.profiles.len(), 1);
    let r2 = db.insert_user_and_profile(user_row("u-1", "b@x.com"), profile_row("p-2", "u-1"));
    assert_eq!(r2.unwrap_err(), AuthError::StorageFailure);
    assert_eq!(db.users.len(), 1);
}

#[test]
fn delete_by_token_removes_only_the_named_row() {
    let mut db = Db::new();
    db.insert_user_and_profile(user_row("u-1", "a@x.com"), profile_row("p-1", "u-1"))
        .expect("the first write should succeed");
    let one = auramatch::models::SessionRecord {
        token: "tok-1".to_string(),
        user_id: "u-1".to_string(),
        expires_at: 100,
    };
    let two = auramatch::models::SessionRecord {
        token: "tok-2".to_string(),
        user_id: "u-1".to_string(),
        expires_at: 200,
    };
    assert!(db.insert_session(one).is_ok());
    assert!(db.insert_session(two).is_ok());
    let token = "tok-1".to_string();
    db.delete_by_token(&token);
    assert_eq!(db.sessions.len(), 1);
    assert_eq!(db.sessions[0].token, "tok-2");
    assert_eq!(db.sessions[0].expires_at, 200);
}

#[test]
fn find_user_by_email_is_exact() {
    let mut db = Db::new();
    db.insert_user_and_profile(user_row("u-1", "a@x.com"), profile_row("p-1", "u-1"))
        .expect("the first write should succeed");
    let hit = db.find_user_by_email(&"a@x.com".to_string());
    assert_eq!(hit, Some(0));
    assert_eq!(db.find_user_by_email(&"A@x.com".to_string()), None);
    assert_eq!(db.find_user_by_email(&"b@x.com".to_string()), None);
}
