//! The mathematical model of the store.
//!
//! Each persisted row kind has a ghost image holding its columns as plain
//! mathematical values, and the whole store is a [`StoreV`]: three sequences
//! of rows.  Every repository operation has a spec-level transition function
//! here; the executable operations in [`crate::store`] promise in their
//! `ensures` that they realise exactly these transitions.

use vstd::prelude::*;

use crate::error::DatabaseError;

verus! {

/// One platform-user row: the platform-assigned identifier (primary key) and
/// an optional display label for the user's last-used playback device.
#[verifier::ext_equal]
pub ghost struct UserV {
    pub id: Seq<char>,
    pub device_name: Option<Seq<char>>,
}

/// One linked-account row: at most one per user.  `expires` is the moment
/// (whole seconds since the Unix epoch) at which `access_token` becomes
/// invalid.
#[verifier::ext_equal]
pub ghost struct AccountV {
    pub user_id: Seq<char>,
    pub access_token: Seq<char>,
    pub refresh_token: Seq<char>,
    pub expires: i64,
    pub session_token: Option<Seq<char>>,
}

/// One pending link-request row: at most one per user.  `token` is the opaque
/// correlation handle placed in the linking URL; `expires` is in whole seconds
/// since the Unix epoch.
#[verifier::ext_equal]
pub ghost struct RequestV {
    pub user_id: Seq<char>,
    pub token: Seq<char>,
    pub expires: i64,
}

/// The whole durable state of the store.
#[verifier::ext_equal]
pub ghost struct StoreV {
    pub users: Seq<UserV>,
    pub accounts: Seq<AccountV>,
    pub requests: Seq<RequestV>,
}

impl StoreV {
    /// Well-formedness: each table is keyed by the user identifier, and no
    /// key occurs twice.
    pub open spec fn wf(self) -> bool {
        &&& forall|i: int, j: int|
            #![trigger self.users[i], self.users[j]]
            0 <= i < j < self.users.len() ==> self.users[i].id != self.users[j].id
        &&& forall|i: int, j: int|
            #![trigger self.accounts[i], self.accounts[j]]
            0 <= i < j < self.accounts.len() ==> self.accounts[i].user_id != self.accounts[j].user_id
        &&& forall|i: int, j: int|
            #![trigger self.requests[i], self.requests[j]]
            0 <= i < j < self.requests.len() ==> self.requests[i].user_id != self.requests[j].user_id
    }
}

// ---------------------------------------------------------------------------
// Row lookup
// ---------------------------------------------------------------------------

pub open spec fn has_user(s: Seq<UserV>, id: Seq<char>) -> bool {
    exists|i: int| 0 <= i < s.len() && (#[trigger] s[i]).id == id
}

/// The index of the row for `id`; meaningful only under `has_user` and
/// uniqueness of keys.
pub open spec fn user_at(s: Seq<UserV>, id: Seq<char>) -> int {
    choose|i: int| 0 <= i < s.len() && (#[trigger] s[i]).id == id
}

pub open spec fn get_user_v(s: Seq<UserV>, id: Seq<char>) -> Option<UserV> {
    if has_user(s, id) {
        Some(s[user_at(s, id)])
    } else {
        None
    }
}

pub open spec fn has_account(s: Seq<AccountV>, id: Seq<char>) -> bool {
    exists|i: int| 0 <= i < s.len() && (#[trigger] s[i]).user_id == id
}

pub open spec fn account_at(s: Seq<AccountV>, id: Seq<char>) -> int {
    choose|i: int| 0 <= i < s.len() && (#[trigger] s[i]).user_id == id
}

pub open spec fn get_account_v(s: Seq<AccountV>, id: Seq<char>) -> Option<AccountV> {
    if has_account(s, id) {
        Some(s[account_at(s, id)])
    } else {
        None
    }
}

pub open spec fn has_request(s: Seq<RequestV>, id: Seq<char>) -> bool {
    exists|i: int| 0 <= i < s.len() && (#[trigger] s[i]).user_id == id
}

pub open spec fn request_at(s: Seq<RequestV>, id: Seq<char>) -> int {
    choose|i: int| 0 <= i < s.len() && (#[trigger] s[i]).user_id == id
}

pub open spec fn get_request_v(s: Seq<RequestV>, id: Seq<char>) -> Option<RequestV> {
    if has_request(s, id) {
        Some(s[request_at(s, id)])
    } else {
        None
    }
}

// ---------------------------------------------------------------------------
// User transitions
// ---------------------------------------------------------------------------

/// `get` over the user table: the unique row for `id`, or `NotFound`.
pub open spec fn get_user_tr(s: StoreV, id: Seq<char>) -> Result<UserV, DatabaseError> {
    match get_user_v(s.users, id) {
        Some(u) => Ok(u),
        None => Err(DatabaseError::NotFound),
    }
}

/// `create`: inserts a fresh row; an existing key is a `Conflict` and leaves
/// the store unchanged.
pub open spec fn create_user_tr(s: StoreV, id: Seq<char>) -> (StoreV, Result<
    UserV,
    DatabaseError,
>) {
    if has_user(s.users, id) {
        (s, Err(DatabaseError::Conflict))
    } else {
        let u = UserV { id, device_name: None };
        (StoreV { users: s.users.push(u), ..s }, Ok(u))
    }
}

/// `get_or_create`: `get`, falling back to `create` only on `NotFound`.
pub open spec fn get_or_create_user_tr(s: StoreV, id: Seq<char>) -> (StoreV, Result<
    UserV,
    DatabaseError,
>) {
    match get_user_v(s.users, id) {
        Some(u) => (s, Ok(u)),
        None => create_user_tr(s, id),
    }
}

/// `delete`: removes the row for `id` if present; the second component is the
/// number of rows affected.
pub open spec fn delete_user_tr(s: StoreV, id: Seq<char>) -> (StoreV, nat) {
    if has_user(s.users, id) {
        (StoreV { users: s.users.remove(user_at(s.users, id)), ..s }, 1nat)
    } else {
        (s, 0nat)
    }
}

/// `update_device_name`: sets the device label on the row for `id`; matching
/// zero rows is a successful no-op.
pub open spec fn update_device_name_tr(s: StoreV, id: Seq<char>, name: Seq<char>) -> StoreV {
    if has_user(s.users, id) {
        let i = user_at(s.users, id);
        StoreV { users: s.users.update(i, UserV { id, device_name: Some(name) }), ..s }
    } else {
        s
    }
}

// ---------------------------------------------------------------------------
// Account transitions
// ---------------------------------------------------------------------------

pub open spec fn get_account_tr(s: StoreV, id: Seq<char>) -> Result<AccountV, DatabaseError> {
    match get_account_v(s.accounts, id) {
        Some(a) => Ok(a),
        None => Err(DatabaseError::NotFound),
    }
}

pub open spec fn delete_account_tr(s: StoreV, id: Seq<char>) -> (StoreV, nat) {
    if has_account(s.accounts, id) {
        (StoreV { accounts: s.accounts.remove(account_at(s.accounts, id)), ..s }, 1nat)
    } else {
        (s, 0nat)
    }
}

/// `update_session_token`: sets or clears the auxiliary session-token column;
/// matching zero rows is a successful no-op.
pub open spec fn update_session_token_tr(
    s: StoreV,
    id: Seq<char>,
    session_token: Option<Seq<char>>,
) -> StoreV {
    if has_account(s.accounts, id) {
        let i = account_at(s.accounts, id);
        let a = s.accounts[i];
        StoreV { accounts: s.accounts.update(i, AccountV { session_token, ..a }), ..s }
    } else {
        s
    }
}

/// `upsert_account`: the path the external linking flow uses to write the
/// first row for a user, and to overwrite it on a re-link.  A fresh row has no
/// session token; an existing row keeps its session token.
pub open spec fn upsert_account_tr(
    s: StoreV,
    id: Seq<char>,
    access_token: Seq<char>,
    refresh_token: Seq<char>,
    expires: i64,
) -> StoreV {
    if has_account(s.accounts, id) {
        let i = account_at(s.accounts, id);
        let a = s.accounts[i];
        StoreV {
            accounts: s.accounts.update(
                i,
                AccountV { user_id: id, access_token, refresh_token, expires, ..a },
            ),
            ..s
        }
    } else {
        StoreV {
            accounts: s.accounts.push(
                AccountV { user_id: id, access_token, refresh_token, expires, session_token: None },
            ),
            ..s
        }
    }
}

// ---------------------------------------------------------------------------
// Link-request transitions
// ---------------------------------------------------------------------------

pub open spec fn get_request_tr(s: StoreV, id: Seq<char>) -> Result<RequestV, DatabaseError> {
    match get_request_v(s.requests, id) {
        Some(r) => Ok(r),
        None => Err(DatabaseError::NotFound),
    }
}

/// `create_request` with its generated values: an upsert keyed on `user_id`
/// that sets `token` and `expires` to the new values on conflict, so that a
/// user never has two live requests.
pub open spec fn create_request_tr(
    s: StoreV,
    id: Seq<char>,
    token: Seq<char>,
    expires: i64,
) -> (StoreV, RequestV) {
    let row = RequestV { user_id: id, token, expires };
    if has_request(s.requests, id) {
        (StoreV { requests: s.requests.update(request_at(s.requests, id), row), ..s }, row)
    } else {
        (StoreV { requests: s.requests.push(row), ..s }, row)
    }
}

// ---------------------------------------------------------------------------
// The refresh protocol
// ---------------------------------------------------------------------------

/// The ghost image of a successful token exchange: a fresh access token, the
/// rotated refresh token if the provider rotated it, and the moment the fresh
/// access token expires.
#[verifier::ext_equal]
pub ghost struct TokenResponseV {
    pub access_token: Seq<char>,
    pub refresh_token: Option<Seq<char>>,
    pub expires_at: i64,
}

/// How a successful exchange renews an account row: the access token and
/// expiry are always replaced; the refresh token is replaced only when the
/// provider rotated it, and kept otherwise.
pub open spec fn refresh_account_v(a: AccountV, resp: TokenResponseV) -> AccountV {
    AccountV {
        access_token: resp.access_token,
        refresh_token: match resp.refresh_token {
            Some(rt) => rt,
            None => a.refresh_token,
        },
        expires: resp.expires_at,
        ..a
    }
}

/// Persisting a successful exchange for `id`'s account row.
pub open spec fn apply_refresh_tr(s: StoreV, id: Seq<char>, resp: TokenResponseV) -> StoreV {
    if has_account(s.accounts, id) {
        let i = account_at(s.accounts, id);
        StoreV { accounts: s.accounts.update(i, refresh_account_v(s.accounts[i], resp)), ..s }
    } else {
        s
    }
}

/// An access token is treated as expiring when it has at most one minute of
/// validity left.
pub open spec fn is_expiring(expires: i64, now: i64) -> bool {
    expires <= now + 60
}

/// A link request lives one hour from its creation (saturating at the far
/// end of representable time).
pub open spec fn link_expiry(now: i64) -> i64 {
    if now <= i64::MAX - 3600 {
        (now + 3600) as i64
    } else {
        i64::MAX
    }
}

// ---------------------------------------------------------------------------
// Lookup lemmas
// ---------------------------------------------------------------------------

/// Under unique keys, a matching index is the index `user_at` denotes.
pub proof fn lemma_user_found(s: StoreV, id: Seq<char>, i: int)
    requires
        s.wf(),
        0 <= i < s.users.len(),
        s.users[i].id == id,
    ensures
        has_user(s.users, id),
        user_at(s.users, id) == i,
        get_user_v(s.users, id) == Some(s.users[i]),
{
    assert(has_user(s.users, id));
    let k = user_at(s.users, id);
    if k != i {
        assert(s.users[k].id == s.users[i].id);
        assert(false);
    }
}

pub proof fn lemma_account_found(s: StoreV, id: Seq<char>, i: int)
    requires
        s.wf(),
        0 <= i < s.accounts.len(),
        s.accounts[i].user_id == id,
    ensures
        has_account(s.accounts, id),
        account_at(s.accounts, id) == i,
        get_account_v(s.accounts, id) == Some(s.accounts[i]),
{
    assert(has_account(s.accounts, id));
    let k = account_at(s.accounts, id);
    if k != i {
        assert(s.accounts[k].user_id == s.accounts[i].user_id);
        assert(false);
    }
}

pub proof fn lemma_request_found(s: StoreV, id: Seq<char>, i: int)
    requires
        s.wf(),
        0 <= i < s.requests.len(),
        s.requests[i].user_id == id,
    ensures
        has_request(s.requests, id),
        request_at(s.requests, id) == i,
        get_request_v(s.requests, id) == Some(s.requests[i]),
{
    assert(has_request(s.requests, id));
    let k = request_at(s.requests, id);
    if k != i {
        assert(s.requests[k].user_id == s.requests[i].user_id);
        assert(false);
    }
}

// ---------------------------------------------------------------------------
// Key-uniqueness preservation
// ---------------------------------------------------------------------------

/// Appending a row whose key is absent keeps user keys unique.
pub proof fn lemma_user_push_wf(s: StoreV, u: UserV)
    requires
        s.wf(),
        !has_user(s.users, u.id),
    ensures
        (StoreV { users: s.users.push(u), ..s }).wf(),
{
    let t = s.users.push(u);
    assert forall|i: int, j: int| 0 <= i < j < t.len() implies t[i].id != t[j].id by {
        if j == s.users.len() {
            if s.users[i].id == u.id {
                assert(has_user(s.users, u.id));
            }
        }
    }
}

/// Removing a row keeps user keys unique, and removes the key entirely.
pub proof fn lemma_user_remove_wf(s: StoreV, at: int)
    requires
        s.wf(),
        0 <= at < s.users.len(),
    ensures
        (StoreV { users: s.users.remove(at), ..s }).wf(),
        !has_user(s.users.remove(at), s.users[at].id),
{
    let t = s.users.remove(at);
    s.users.remove_ensures(at);
    assert forall|i: int, j: int| 0 <= i < j < t.len() implies t[i].id != t[j].id by {
        assert(t[i] == if i < at { s.users[i] } else { s.users[i + 1] });
        assert(t[j] == if j < at { s.users[j] } else { s.users[j + 1] });
    }
    if has_user(t, s.users[at].id) {
        let k = choose|i: int| 0 <= i < t.len() && (#[trigger] t[i]).id == s.users[at].id;
        assert(t[k] == if k < at { s.users[k] } else { s.users[k + 1] });
        assert(false);
    }
}

/// Replacing a row by one with the same key keeps user keys unique.
pub proof fn lemma_user_update_wf(s: StoreV, at: int, u: UserV)
    requires
        s.wf(),
        0 <= at < s.users.len(),
        u.id == s.users[at].id,
    ensures
        (StoreV { users: s.users.update(at, u), ..s }).wf(),
{
    let t = s.users.update(at, u);
    assert forall|i: int, j: int| 0 <= i < j < t.len() implies t[i].id != t[j].id by {
        assert(s.users[i].id != s.users[j].id);
    }
}

/// Appending an account whose key is absent keeps account keys unique.
pub proof fn lemma_account_push_wf(s: StoreV, a: AccountV)
    requires
        s.wf(),
        !has_account(s.accounts, a.user_id),
    ensures
        (StoreV { accounts: s.accounts.push(a), ..s }).wf(),
{
    let t = s.accounts.push(a);
    assert forall|i: int, j: int| 0 <= i < j < t.len() implies t[i].user_id != t[j].user_id by {
        if j == s.accounts.len() {
            if s.accounts[i].user_id == a.user_id {
                assert(has_account(s.accounts, a.user_id));
            }
        }
    }
}

/// Removing an account keeps account keys unique, and removes the key.
pub proof fn lemma_account_remove_wf(s: StoreV, at: int)
    requires
        s.wf(),
        0 <= at < s.accounts.len(),
    ensures
        (StoreV { accounts: s.accounts.remove(at), ..s }).wf(),
        !has_account(s.accounts.remove(at), s.accounts[at].user_id),
{
    let t = s.accounts.remove(at);
    s.accounts.remove_ensures(at);
    assert forall|i: int, j: int| 0 <= i < j < t.len() implies t[i].user_id != t[j].user_id by {
        assert(t[i] == if i < at { s.accounts[i] } else { s.accounts[i + 1] });
        assert(t[j] == if j < at { s.accounts[j] } else { s.accounts[j + 1] });
    }
    if has_account(t, s.accounts[at].user_id) {
        let k = choose|i: int|
            0 <= i < t.len() && (#[trigger] t[i]).user_id == s.accounts[at].user_id;
        assert(t[k] == if k < at { s.accounts[k] } else { s.accounts[k + 1] });
        assert(false);
    }
}

/// Replacing an account by one with the same key keeps account keys unique.
pub proof fn lemma_account_update_wf(s: StoreV, at: int, a: AccountV)
    requires
        s.wf(),
        0 <= at < s.accounts.len(),
        a.user_id == s.accounts[at].user_id,
    ensures
        (StoreV { accounts: s.accounts.update(at, a), ..s }).wf(),
{
    let t = s.accounts.update(at, a);
    assert forall|i: int, j: int| 0 <= i < j < t.len() implies t[i].user_id != t[j].user_id by {
        assert(s.accounts[i].user_id != s.accounts[j].user_id);
    }
}

/// Appending a request whose key is absent keeps request keys unique.
pub proof fn lemma_request_push_wf(s: StoreV, q: RequestV)
    requires
        s.wf(),
        !has_request(s.requests, q.user_id),
    ensures
        (StoreV { requests: s.requests.push(q), ..s }).wf(),
{
    let t = s.requests.push(q);
    assert forall|i: int, j: int| 0 <= i < j < t.len() implies t[i].user_id != t[j].user_id by {
        if j == s.requests.len() {
            if s.requests[i].user_id == q.user_id {
                assert(has_request(s.requests, q.user_id));
            }
        }
    }
}

/// Replacing a request by one with the same key keeps request keys unique.
pub proof fn lemma_request_update_wf(s: StoreV, at: int, q: RequestV)
    requires
        s.wf(),
        0 <= at < s.requests.len(),
        q.user_id == s.requests[at].user_id,
    ensures
        (StoreV { requests: s.requests.update(at, q), ..s }).wf(),
{
    let t = s.requests.update(at, q);
    assert forall|i: int, j: int| 0 <= i < j < t.len() implies t[i].user_id != t[j].user_id by {
        assert(s.requests[i].user_id != s.requests[j].user_id);
    }
}

} // verus!
