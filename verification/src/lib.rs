//! A credential store for a chat bot that links platform users to a
//! music-streaming account.
//!
//! The store keeps three kinds of rows — platform users, linked accounts and
//! pending link requests — and guarantees that a valid access token can always
//! be obtained for a linked user: an expiring token is transparently refreshed
//! through an external token exchange and the renewed credentials are persisted
//! before they are returned.  A retry policy masks one specific class of
//! transient backend failures (a stale prepared statement).

pub mod clock;
pub mod config;
pub mod error;
pub mod exchange;
pub mod laws;
pub mod model;
pub mod retry;
pub mod store;
pub mod token;

pub use config::Config;
pub use error::DatabaseError;
pub use exchange::{TokenExchanger, TokenResponse};
pub use store::{Account, Database, LinkRequest, User};
