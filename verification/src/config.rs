//! Explicit configuration for the store and its collaborators.
//!
//! The values are passed in at construction and owned for the store's
//! lifetime — no ambient process environment is read here; the edge code
//! collects the values (from its secret store or environment) and builds a
//! [`Config`] once at startup.

use vstd::prelude::*;

verus! {

/// The ghost image of a configuration.
#[verifier::ext_equal]
pub ghost struct ConfigV {
    pub discord_token: Seq<char>,
    pub database_url: Seq<char>,
    pub link_url: Seq<char>,
    pub kv_url: Seq<char>,
    pub spotify_client_id: Seq<char>,
    pub spotify_client_secret: Seq<char>,
}

/// Everything the store and the surrounding bot need to reach their
/// collaborators.
#[derive(Debug, Clone, PartialEq, Eq)]
pub struct Config {
    discord_token: String,
    database_url: String,
    link_url: String,
    kv_url: String,
    spotify_client_id: String,
    spotify_client_secret: String,
}

impl View for Config {
    type V = ConfigV;

    closed spec fn view(&self) -> ConfigV {
        ConfigV {
            discord_token: self.discord_token@,
            database_url: self.database_url@,
            link_url: self.link_url@,
            kv_url: self.kv_url@,
            spotify_client_id: self.spotify_client_id@,
            spotify_client_secret: self.spotify_client_secret@,
        }
    }
}

impl Config {
    /// Bundle the configuration values.
    pub fn new(
        discord_token: String,
        database_url: String,
        link_url: String,
        kv_url: String,
        spotify_client_id: String,
        spotify_client_secret: String,
    ) -> (c: Config)
        ensures
            c@ == (ConfigV {
                discord_token: discord_token@,
                database_url: database_url@,
                link_url: link_url@,
                kv_url: kv_url@,
                spotify_client_id: spotify_client_id@,
                spotify_client_secret: spotify_client_secret@,
            }),
    {
        Config {
            discord_token,
            database_url,
            link_url,
            kv_url,
            spotify_client_id,
            spotify_client_secret,
        }
    }

    /// The chat-platform gateway token.
    pub fn discord_token(&self) -> (r: &str)
        ensures
            r@ == self@.discord_token,
    {
        self.discord_token.as_str()
    }

    /// The backend connection string.
    pub fn database_url(&self) -> (r: &str)
        ensures
            r@ == self@.database_url,
    {
        self.database_url.as_str()
    }

    /// The base URL of the web-facing linking flow.
    pub fn link_url(&self) -> (r: &str)
        ensures
            r@ == self@.link_url,
    {
        self.link_url.as_str()
    }

    /// The key-value service URL.
    pub fn kv_url(&self) -> (r: &str)
        ensures
            r@ == self@.kv_url,
    {
        self.kv_url.as_str()
    }

    /// The identity provider's client identifier.
    pub fn spotify_client_id(&self) -> (r: &str)
        ensures
            r@ == self@.spotify_client_id,
    {
        self.spotify_client_id.as_str()
    }

    /// The identity provider's client secret.
    pub fn spotify_client_secret(&self) -> (r: &str)
        ensures
            r@ == self@.spotify_client_secret,
    {
        self.spotify_client_secret.as_str()
    }
}

} // verus!
