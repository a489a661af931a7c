use std::cell::Cell;

use spoticord_store::retry::{is_transient_signature, retry_on_prepared_statement_error};
use spoticord_store::DatabaseError;

const TRANSIENT_MESSAGE: &str =
    "ERROR: unnamed prepared statement does not exist (after failover)";

fn transient_error() -> DatabaseError {
    DatabaseError::Backend { message: TRANSIENT_MESSAGE.to_string() }
}

#[test]
fn transient_signature_is_recognised() {
    assert!(is_transient_signature(&transient_error()));
    assert!(is_transient_signature(&DatabaseError::Backend {
        message: "unnamed prepared statement does not exist".to_string(),
    }));
}

#[test]
fn other_errors_do_not_match_the_signature() {
    assert!(!is_transient_signature(&DatabaseError::Backend {
        message: "connection reset by peer".to_string(),
    }));
    assert!(!is_transient_signature(&DatabaseError::NotFound));
    assert!(!is_transient_signature(&DatabaseError::RefreshTokenFailure));
}

#[test]
fn transient_failure_once_is_masked_and_work_runs_twice() {
    let calls = Cell::new(0u32);
    let outcome = retry_on_prepared_statement_error(|| {
        calls.set(calls.get() + 1);
        if calls.get() == 1 {
            Err(transient_error())
        } else {
            Ok(42u32)
        }
    });
    assert_eq!(outcome, Ok(42));
    assert_eq!(calls.get(), 2);
}

#[test]
fn transient_failure_twice_returns_the_second_failure_after_two_runs() {
    let calls = Cell::new(0u32);
    let outcome: Result<u32, DatabaseError> = retry_on_prepared_statement_error(|| {
        calls.set(calls.get() + 1);
        Err(transient_error())
    });
    assert_eq!(outcome, Err(transient_error()));
    assert_eq!(calls.get(), 2);
}

#[test]
fn other_error_propagates_after_a_single_run() {
    let calls = Cell::new(0u32);
    let outcome: Result<u32, DatabaseError> = retry_on_prepared_statement_error(|| {
        calls.set(calls.get() + 1);
        Err(DatabaseError::Backend { message: "deadlock detected".to_string() })
    });
    assert_eq!(outcome, Err(DatabaseError::Backend { message: "deadlock detected".to_string() }));
    assert_eq!(calls.get(), 1);
}

#[test]
fn success_needs_a_single_run() {
    let calls = Cell::new(0u32);
    let outcome = retry_on_prepared_statement_error(|| {
        calls.set(calls.get() + 1);
        Ok("done")
    });
    assert_eq!(outcome, Ok("done"));
    assert_eq!(calls.get(), 1);
}
