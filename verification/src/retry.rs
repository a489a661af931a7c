//! The retry policy for transient backend failures.
//!
//! The backend occasionally invalidates server-side prepared statements
//! (after an infrastructure-side failover), which surfaces as one specific
//! error message.  A unit of work that fails with exactly that signature is
//! run once more — the statement is re-prepared on the way — and any other
//! error, or a second failure, propagates unchanged.
//!
//! A unit of work passed through this policy must be idempotent: a pure read,
//! or a write phrased as an upsert or exact-match update, so that running it
//! twice is harmless.  Work that is not safely repeatable — minting a unique
//! random token, say — must bypass the policy and run exactly once.

use vstd::prelude::*;

use crate::error::DatabaseError;

verus! {

/// The backend message that marks the one transient failure the policy may
/// mask: the backend dropped an unnamed prepared statement.
pub open spec fn transient_signature() -> Seq<char> {
    "unnamed prepared statement does not exist"@
}

/// `needle` occurs in `hay` as a contiguous run.
pub open spec fn spec_contains(hay: Seq<char>, needle: Seq<char>) -> bool {
    exists|i: int|
        0 <= i && i + needle.len() <= hay.len() && (#[trigger] hay.subrange(
            i,
            i + needle.len() as int,
        )) =~= needle
}

/// Relies on str::contains: true exactly when the pattern occurs as a
/// contiguous substring of the slice.
#[verifier::external_body]
fn str_contains(hay: &str, needle: &str) -> (r: bool)
    ensures
        r == spec_contains(hay@, needle@),
{
    hay.contains(needle)
}

/// Whether an error carries the transient prepared-statement signature.
pub open spec fn spec_is_transient(e: DatabaseError) -> bool {
    match e {
        DatabaseError::Backend { message } => spec_contains(message@, transient_signature()),
        _ => false,
    }
}

/// Recognise the transient prepared-statement signature on a backend error.
pub fn is_transient_signature(e: &DatabaseError) -> (r: bool)
    ensures
        r == spec_is_transient(*e),
{
    match e {
        DatabaseError::Backend { message } => str_contains(
            message.as_str(),
            "unnamed prepared statement does not exist",
        ),
        _ => false,
    }
}

/// Run an idempotent unit of work; when it fails with exactly the transient
/// prepared-statement signature, run it once more and return that second
/// outcome.  Any other error, or a second failure, propagates unchanged.
/// Whatever path is taken, the result is an outcome of the unit of work.
pub fn retry_on_prepared_statement_error<R, F: Fn() -> Result<R, DatabaseError>>(operation: F) -> (r:
    Result<R, DatabaseError>)
    requires
        call_requires(operation, ()),
    ensures
        call_ensures(operation, (), r),
{
    let first = operation();
    match first {
        Err(e) => {
            if is_transient_signature(&e) {
                // The statement has been re-prepared; one more try.
                operation()
            } else {
                Err(e)
            }
        },
        ok => ok,
    }
}

} // verus!
