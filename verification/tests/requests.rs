use std::time::{SystemTime, UNIX_EPOCH};

use spoticord_store::{Database, DatabaseError};

fn fresh() -> Database {
    Database::connect_with_url("postgres://localhost/spoticord").expect("connect")
}

#[test]
fn get_request_not_found() {
    let db = fresh();
    assert_eq!(db.get_request("100"), Err(DatabaseError::NotFound));
}

#[test]
fn create_request_token_is_64_alphanumeric_chars() {
    let mut db = fresh();
    let req = db.create_request("100").expect("create_request");
    assert_eq!(req.user_id, "100");
    assert_eq!(req.token.chars().count(), 64);
    assert!(req.token.chars().all(|c| c.is_ascii_alphanumeric()));
}

#[test]
fn create_request_tokens_never_collide() {
    let mut db = fresh();
    let mut seen = Vec::new();
    for user in ["100", "100", "200", "300", "100"] {
        let req = db.create_request(user).expect("create_request");
        assert!(!seen.contains(&req.token), "token collision");
        seen.push(req.token);
    }
}

#[test]
fn create_request_expires_in_one_hour() {
    let mut db = fresh();
    let before = SystemTime::now().duration_since(UNIX_EPOCH).unwrap().as_secs() as i64;
    let req = db.create_request("100").expect("create_request");
    let after = SystemTime::now().duration_since(UNIX_EPOCH).unwrap().as_secs() as i64;
    assert!(req.expires >= before + 3600);
    assert!(req.expires <= after + 3600);
}

#[test]
fn create_request_twice_keeps_one_row_with_second_values() {
    let mut db = fresh();
    let first = db.create_request("100").expect("first");
    let second = db.create_request("100").expect("second");
    assert_ne!(first.token, second.token);
    let stored = db.get_request("100").expect("get_request");
    assert_eq!(stored, second);
}

#[test]
fn create_request_with_upserts_exact_values() {
    let mut db = fresh();
    let first = db.create_request_with("100", "tok-one".to_string(), 1_000);
    assert_eq!(first.token, "tok-one");
    assert_eq!(first.expires, 1_000);
    let second = db.create_request_with("100", "tok-two".to_string(), 2_000);
    assert_eq!(second.token, "tok-two");
    assert_eq!(second.expires, 2_000);
    let stored = db.get_request("100").expect("get_request");
    assert_eq!(stored, second);
}

#[test]
fn requests_are_kept_apart_by_user() {
    let mut db = fresh();
    db.create_request_with("100", "tok-a".to_string(), 1_000);
    db.create_request_with("200", "tok-b".to_string(), 2_000);
    assert_eq!(db.get_request("100").expect("get").token, "tok-a");
    assert_eq!(db.get_request("200").expect("get").token, "tok-b");
}
