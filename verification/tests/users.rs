use spoticord_store::{Database, DatabaseError};

fn fresh() -> Database {
    Database::connect_with_url("postgres://localhost/spoticord").expect("connect")
}

#[test]
fn get_user_not_found() {
    let db = fresh();
    assert_eq!(db.get_user("100"), Err(DatabaseError::NotFound));
}

#[test]
fn create_user_then_get() {
    let mut db = fresh();
    let created = db.create_user("100").expect("create");
    assert_eq!(created.id, "100");
    assert_eq!(created.device_name, None);
    let fetched = db.get_user("100").expect("get");
    assert_eq!(fetched, created);
}

#[test]
fn create_user_conflict() {
    let mut db = fresh();
    db.create_user("100").expect("create");
    assert_eq!(db.create_user("100"), Err(DatabaseError::Conflict));
}

#[test]
fn get_or_create_user_twice_yields_same_user() {
    let mut db = fresh();
    let first = db.get_or_create_user("100").expect("first call");
    let second = db.get_or_create_user("100").expect("second call");
    assert_eq!(first.id, "100");
    assert_eq!(second.id, first.id);
    assert_eq!(second, first);
}

#[test]
fn get_or_create_user_keeps_existing_row() {
    let mut db = fresh();
    db.create_user("100").expect("create");
    db.update_device_name("100", "Kitchen").expect("update");
    let user = db.get_or_create_user("100").expect("get_or_create");
    assert_eq!(user.device_name.as_deref(), Some("Kitchen"));
}

#[test]
fn delete_user_reports_affected_rows() {
    let mut db = fresh();
    db.create_user("100").expect("create");
    assert_eq!(db.delete_user("100"), Ok(1));
    assert_eq!(db.delete_user("100"), Ok(0));
    assert_eq!(db.get_user("100"), Err(DatabaseError::NotFound));
}

#[test]
fn update_device_name_existing_user() {
    let mut db = fresh();
    db.create_user("100").expect("create");
    db.update_device_name("100", "Living room").expect("update");
    let user = db.get_user("100").expect("get");
    assert_eq!(user.device_name.as_deref(), Some("Living room"));
}

#[test]
fn update_device_name_nonexistent_user_is_quiet_success() {
    let mut db = fresh();
    assert_eq!(db.update_device_name("100", "Living room"), Ok(()));
    assert_eq!(db.get_user("100"), Err(DatabaseError::NotFound));
}

#[test]
fn users_are_kept_apart() {
    let mut db = fresh();
    db.create_user("100").expect("create");
    db.create_user("200").expect("create");
    db.update_device_name("100", "Desk").expect("update");
    assert_eq!(db.get_user("200").expect("get").device_name, None);
    assert_eq!(db.delete_user("100"), Ok(1));
    assert!(db.get_user("200").is_ok());
}
