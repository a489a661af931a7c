use std::cell::RefCell;

use spoticord_store::{Database, DatabaseError, TokenExchanger, TokenResponse};

/// A substitute identity-provider client: hands out a fixed outcome and
/// records every exchange call with the refresh token it was given.
struct StubExchanger {
    outcome: Option<TokenResponse>,
    calls: u32,
    seen_refresh_tokens: RefCell<Vec<String>>,
}

impl StubExchanger {
    fn new(outcome: Option<TokenResponse>) -> Self {
        StubExchanger { outcome, calls: 0, seen_refresh_tokens: RefCell::new(Vec::new()) }
    }
}

impl TokenExchanger for StubExchanger {
    fn exchange(&mut self, refresh_token: &str) -> Option<TokenResponse> {
        self.calls += 1;
        self.seen_refresh_tokens.borrow_mut().push(refresh_token.to_string());
        self.outcome.clone()
    }
}

fn fresh() -> Database {
    Database::connect_with_url("postgres://localhost/spoticord").expect("connect")
}

fn renewed() -> TokenResponse {
    TokenResponse {
        access_token: "fresh-access".to_string(),
        refresh_token: Some("fresh-refresh".to_string()),
        expires_at: 9_999_999_999,
    }
}

#[test]
fn not_linked_user_is_not_found_and_no_exchange_happens() {
    let mut db = fresh();
    let mut exchanger = StubExchanger::new(Some(renewed()));
    let got = db.get_access_token("100", &mut exchanger);
    assert_eq!(got, Err(DatabaseError::NotFound));
    assert_eq!(exchanger.calls, 0);
}

#[test]
fn fresh_token_is_returned_unchanged_without_exchange() {
    let mut db = fresh();
    db.upsert_account("100", "stored-access".to_string(), "stored-refresh".to_string(), i64::MAX)
        .expect("upsert");
    let mut exchanger = StubExchanger::new(Some(renewed()));
    let got = db.get_access_token("100", &mut exchanger).expect("get_access_token");
    assert_eq!(got, "stored-access");
    assert_eq!(exchanger.calls, 0);
    let account = db.get_account("100").expect("get_account");
    assert_eq!(account.access_token, "stored-access");
    assert_eq!(account.refresh_token, "stored-refresh");
}

#[test]
fn expired_token_triggers_exactly_one_exchange_and_persists_the_result() {
    let mut db = fresh();
    db.upsert_account("100", "stored-access".to_string(), "stored-refresh".to_string(), 0)
        .expect("upsert");
    let mut exchanger = StubExchanger::new(Some(renewed()));
    let got = db.get_access_token("100", &mut exchanger).expect("get_access_token");
    assert_eq!(got, "fresh-access");
    assert_eq!(exchanger.calls, 1);
    assert_eq!(exchanger.seen_refresh_tokens.borrow().as_slice(), ["stored-refresh"]);
    let account = db.get_account("100").expect("get_account");
    assert_eq!(account.access_token, "fresh-access");
    assert_eq!(account.refresh_token, "fresh-refresh");
    assert_eq!(account.expires, 9_999_999_999);
}

#[test]
fn unrotated_refresh_token_is_kept() {
    let mut db = fresh();
    db.upsert_account("100", "stored-access".to_string(), "stored-refresh".to_string(), 0)
        .expect("upsert");
    let response = TokenResponse {
        access_token: "fresh-access".to_string(),
        refresh_token: None,
        expires_at: 9_999_999_999,
    };
    let mut exchanger = StubExchanger::new(Some(response));
    let got = db.get_access_token("100", &mut exchanger).expect("get_access_token");
    assert_eq!(got, "fresh-access");
    let account = db.get_account("100").expect("get_account");
    assert_eq!(account.refresh_token, "stored-refresh");
}

#[test]
fn failed_exchange_deletes_the_account_and_reports_refresh_failure() {
    let mut db = fresh();
    db.upsert_account("100", "stored-access".to_string(), "stored-refresh".to_string(), 0)
        .expect("upsert");
    let mut exchanger = StubExchanger::new(None);
    let got = db.get_access_token("100", &mut exchanger);
    assert_eq!(got, Err(DatabaseError::RefreshTokenFailure));
    assert_eq!(exchanger.calls, 1);
    assert_eq!(db.get_account("100"), Err(DatabaseError::NotFound));
}

#[test]
fn refresh_failure_leaves_other_tables_alone() {
    let mut db = fresh();
    db.create_user("100").expect("create_user");
    db.create_request_with("100", "tok".to_string(), 1_000);
    db.upsert_account("100", "a".to_string(), "r".to_string(), 0).expect("upsert");
    let mut exchanger = StubExchanger::new(None);
    assert_eq!(db.get_access_token("100", &mut exchanger), Err(DatabaseError::RefreshTokenFailure));
    assert!(db.get_user("100").is_ok());
    assert!(db.get_request("100").is_ok());
}

#[test]
fn one_minute_margin_is_the_expiry_boundary() {
    let mut db = fresh();
    db.upsert_account("100", "stored".to_string(), "refresh".to_string(), 1_060).expect("upsert");

    // Exactly one minute of validity left counts as expiring.
    let mut exchanger = StubExchanger::new(Some(renewed()));
    let got = db.get_access_token_at("100", 1_000, &mut exchanger).expect("token");
    assert_eq!(got, "fresh-access");
    assert_eq!(exchanger.calls, 1);

    // A second more than the minute does not.
    let mut db = fresh();
    db.upsert_account("100", "stored".to_string(), "refresh".to_string(), 1_061).expect("upsert");
    let mut exchanger = StubExchanger::new(Some(renewed()));
    let got = db.get_access_token_at("100", 1_000, &mut exchanger).expect("token");
    assert_eq!(got, "stored");
    assert_eq!(exchanger.calls, 0);
}
