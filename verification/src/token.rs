//! Random link-request tokens.

use rand::Rng;
use vstd::prelude::*;

verus! {

/// The length of a link-request token.
pub const TOKEN_LENGTH: usize = 64;

/// The alphabet a link-request token is drawn from: ASCII digits and letters.
pub open spec fn is_token_char(c: char) -> bool {
    ('0' <= c && c <= '9') || ('A' <= c && c <= 'Z') || ('a' <= c && c <= 'z')
}

/// Relies on rand's thread-local generator sampled through the
/// `Alphanumeric` distribution: every drawn byte is an ASCII digit or
/// letter, and taking `len` of them yields exactly `len` characters.
#[verifier::external_body]
pub(crate) fn random_alphanumeric(len: usize) -> (r: String)
    ensures
        r@.len() == len,
        forall|i: int| 0 <= i < r@.len() ==> is_token_char(#[trigger] r@[i]),
{
    rand::thread_rng().sample_iter(&rand::distributions::Alphanumeric).take(len).map(
        char::from,
    ).collect()
}

} // verus!
