use spoticord_store::{Config, Database, DatabaseError};

fn sample() -> Config {
    Config::new(
        "discord-token".to_string(),
        "postgres://localhost/spoticord".to_string(),
        "https://link.example".to_string(),
        "redis://localhost".to_string(),
        "client-id".to_string(),
        "client-secret".to_string(),
    )
}

#[test]
fn config_hands_back_what_it_was_given() {
    let config = sample();
    assert_eq!(config.discord_token(), "discord-token");
    assert_eq!(config.database_url(), "postgres://localhost/spoticord");
    assert_eq!(config.link_url(), "https://link.example");
    assert_eq!(config.kv_url(), "redis://localhost");
    assert_eq!(config.spotify_client_id(), "client-id");
    assert_eq!(config.spotify_client_secret(), "client-secret");
}

#[test]
fn connect_uses_the_configured_backend_and_starts_empty() {
    let config = sample();
    let db = Database::connect(&config).expect("connect");
    assert_eq!(db.get_user("100"), Err(DatabaseError::NotFound));
    assert_eq!(db.get_account("100"), Err(DatabaseError::NotFound));
    assert_eq!(db.get_request("100"), Err(DatabaseError::NotFound));
}
