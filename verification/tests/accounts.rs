use spoticord_store::{Database, DatabaseError};

fn fresh() -> Database {
    Database::connect_with_url("postgres://localhost/spoticord").expect("connect")
}

fn link(db: &mut Database, user: &str) {
    db.upsert_account(user, format!("access-{user}"), format!("refresh-{user}"), 5_000)
        .expect("upsert_account");
}

#[test]
fn get_account_not_found() {
    let db = fresh();
    assert_eq!(db.get_account("100"), Err(DatabaseError::NotFound));
}

#[test]
fn upsert_account_then_get() {
    let mut db = fresh();
    link(&mut db, "100");
    let account = db.get_account("100").expect("get_account");
    assert_eq!(account.user_id, "100");
    assert_eq!(account.access_token, "access-100");
    assert_eq!(account.refresh_token, "refresh-100");
    assert_eq!(account.expires, 5_000);
    assert_eq!(account.session_token, None);
}

#[test]
fn upsert_account_replaces_credentials() {
    let mut db = fresh();
    link(&mut db, "100");
    db.update_session_token("100", Some("sess".to_string())).expect("session");
    db.upsert_account("100", "a2".to_string(), "r2".to_string(), 9_000).expect("re-link");
    let account = db.get_account("100").expect("get_account");
    assert_eq!(account.access_token, "a2");
    assert_eq!(account.refresh_token, "r2");
    assert_eq!(account.expires, 9_000);
    // Re-linking replaces the credentials and keeps the session token.
    assert_eq!(account.session_token.as_deref(), Some("sess"));
}

#[test]
fn update_session_token_sets_and_clears() {
    let mut db = fresh();
    link(&mut db, "100");
    db.update_session_token("100", Some("sess".to_string())).expect("set");
    assert_eq!(db.get_account("100").expect("get").session_token.as_deref(), Some("sess"));
    db.update_session_token("100", None).expect("clear");
    assert_eq!(db.get_account("100").expect("get").session_token, None);
}

#[test]
fn update_session_token_nonexistent_account_is_quiet_success() {
    let mut db = fresh();
    assert_eq!(db.update_session_token("100", Some("sess".to_string())), Ok(()));
    assert_eq!(db.get_account("100"), Err(DatabaseError::NotFound));
}

#[test]
fn delete_account_reports_affected_rows() {
    let mut db = fresh();
    link(&mut db, "100");
    assert_eq!(db.delete_account("100"), Ok(1));
    assert_eq!(db.delete_account("100"), Ok(0));
    assert_eq!(db.get_account("100"), Err(DatabaseError::NotFound));
}

#[test]
fn accounts_are_kept_apart() {
    let mut db = fresh();
    link(&mut db, "100");
    link(&mut db, "200");
    assert_eq!(db.delete_account("100"), Ok(1));
    let left = db.get_account("200").expect("get_account");
    assert_eq!(left.access_token, "access-200");
}
