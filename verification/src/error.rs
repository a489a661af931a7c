use vstd::prelude::*;

verus! {

/// Every failure the store can report to a caller.
///
/// Transient backend failures are carried as [`DatabaseError::Backend`] with
/// the backend's message kept verbatim, so that the retry policy can match the
/// one signature it is allowed to mask (see [`crate::retry`]).
#[derive(Debug, Clone, PartialEq, Eq)]
pub enum DatabaseError {
    /// No row matched the requested key.
    NotFound,
    /// A uniqueness constraint was violated (the key already exists).
    Conflict,
    /// The connection pool had no free connection to hand out.
    PoolExhausted,
    /// Acquiring a connection from the pool timed out.
    ConnectionTimeout,
    /// The backend reported an error; the message is kept verbatim so that
    /// the retry policy can recognise the transient prepared-statement
    /// signature.
    Backend { message: String },
    /// The external token exchange failed or returned no token: the user's
    /// link is no longer valid and the user must re-link.
    RefreshTokenFailure,
    /// Schema migrations could not be completed at startup; fatal.
    MigrationFailure,
}

} // verus!
