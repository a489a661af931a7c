//! The store itself: the three row types and the repository operations.
//!
//! [`Database`] owns the durable state of the three tables.  Its view is the
//! ghost [`StoreV`] of [`crate::model`], and every operation's `ensures`
//! states that it realises exactly the corresponding spec transition.
//! Callers receive owned copies of rows on every read.
//!
//! The real deployment keeps these tables behind a relational backend reached
//! through a connection pool that is pinned to a single connection with a
//! 30-second acquisition timeout, so that prepared statements never drift
//! between connections after an infrastructure-side failover; those two
//! constants are exposed here for the edge code that builds the pool.

use vstd::prelude::*;

use crate::clock::now_unix;
use crate::error::DatabaseError;
use crate::exchange::{TokenExchanger, TokenResponse};
use crate::model::link_expiry;
use crate::token::{is_token_char, random_alphanumeric, TOKEN_LENGTH};
use crate::model::{
    account_at, apply_refresh_tr, create_request_tr, create_user_tr, delete_account_tr,
    delete_user_tr, get_account_tr, get_account_v, get_or_create_user_tr, get_request_tr,
    get_user_tr, has_account, has_request, has_user, is_expiring,
    lemma_account_found, lemma_account_push_wf, lemma_account_remove_wf, lemma_account_update_wf,
    lemma_request_found, lemma_request_push_wf, lemma_request_update_wf, lemma_user_found,
    lemma_user_push_wf, lemma_user_remove_wf, lemma_user_update_wf, refresh_account_v, request_at,
    update_device_name_tr, update_session_token_tr, upsert_account_tr, user_at, AccountV,
    RequestV, StoreV, TokenResponseV, UserV,
};

verus! {

/// The pool is pinned to a single live connection: it eliminates
/// prepared-statement drift between connections after a backend failover.
pub const POOL_MAX_SIZE: u32 = 1;

/// How long an acquisition may wait for the one connection before the pool
/// reports exhaustion.
pub const POOL_ACQUIRE_TIMEOUT_SECS: u64 = 30;

/// A platform-user row.
#[derive(Debug, Clone, PartialEq, Eq)]
pub struct User {
    /// Platform-assigned user identifier; primary key.
    pub id: String,
    /// Display label for the user's last-used playback device.
    pub device_name: Option<String>,
}

impl View for User {
    type V = UserV;

    open spec fn view(&self) -> UserV {
        UserV { id: self.id@, device_name: self.device_name.deep_view() }
    }
}

/// A linked-account row; at most one per user.
#[derive(Debug, Clone, PartialEq, Eq)]
pub struct Account {
    /// Foreign key to the platform user; unique.
    pub user_id: String,
    /// Current bearer credential for the streaming provider.
    pub access_token: String,
    /// Long-lived credential used to mint new access tokens.
    pub refresh_token: String,
    /// Moment (whole seconds since the Unix epoch) at which `access_token`
    /// becomes invalid.
    pub expires: i64,
    /// Auxiliary session token, set and cleared by the session layer.
    pub session_token: Option<String>,
}

impl View for Account {
    type V = AccountV;

    open spec fn view(&self) -> AccountV {
        AccountV {
            user_id: self.user_id@,
            access_token: self.access_token@,
            refresh_token: self.refresh_token@,
            expires: self.expires,
            session_token: self.session_token.deep_view(),
        }
    }
}

/// A pending link-request row; at most one per user.
#[derive(Debug, Clone, PartialEq, Eq)]
pub struct LinkRequest {
    /// Foreign key to the platform user; unique.
    pub user_id: String,
    /// Opaque random correlation handle used in the linking URL.
    pub token: String,
    /// Moment (whole seconds since the Unix epoch) at which the request
    /// lapses.
    pub expires: i64,
}

impl View for LinkRequest {
    type V = RequestV;

    open spec fn view(&self) -> RequestV {
        RequestV { user_id: self.user_id@, token: self.token@, expires: self.expires }
    }
}

/// The store: owns the durable state of the three tables.
pub struct Database {
    users: Vec<User>,
    accounts: Vec<Account>,
    requests: Vec<LinkRequest>,
}

impl View for Database {
    type V = StoreV;

    closed spec fn view(&self) -> StoreV {
        StoreV {
            users: self.users@.map_values(|u: User| u@),
            accounts: self.accounts@.map_values(|a: Account| a@),
            requests: self.requests@.map_values(|q: LinkRequest| q@),
        }
    }
}

/// How an executable user result realises a spec-level one.
pub open spec fn same_user_result(
    r: Result<User, DatabaseError>,
    v: Result<UserV, DatabaseError>,
) -> bool {
    match (r, v) {
        (Ok(u), Ok(uv)) => u@ == uv,
        (Err(e), Err(ev)) => e == ev,
        _ => false,
    }
}

/// How an executable account result realises a spec-level one.
pub open spec fn same_account_result(
    r: Result<Account, DatabaseError>,
    v: Result<AccountV, DatabaseError>,
) -> bool {
    match (r, v) {
        (Ok(a), Ok(av)) => a@ == av,
        (Err(e), Err(ev)) => e == ev,
        _ => false,
    }
}

/// How an executable link-request result realises a spec-level one.
pub open spec fn same_request_result(
    r: Result<LinkRequest, DatabaseError>,
    v: Result<RequestV, DatabaseError>,
) -> bool {
    match (r, v) {
        (Ok(q), Ok(qv)) => q@ == qv,
        (Err(e), Err(ev)) => e == ev,
        _ => false,
    }
}

/// What `get_access_token` guarantees, for a well-formed `pre`, whatever the
/// exchange client did.  The user and request tables are untouched.  A user
/// without an account is `NotFound`.  An account with more than a minute of
/// validity left is returned unchanged.  An expiring account is either
/// renewed from some exchange response — the returned token is exactly the
/// renewed row's access token — or, when the exchange yields nothing, the
/// account row is gone and the caller sees `RefreshTokenFailure`; no other
/// outcome exists.
pub open spec fn access_token_post(
    pre: StoreV,
    post: StoreV,
    uid: Seq<char>,
    now: i64,
    r: Result<String, DatabaseError>,
) -> bool {
    &&& post.wf()
    &&& post.users == pre.users
    &&& post.requests == pre.requests
    &&& (!has_account(pre.accounts, uid) ==> post == pre && r == Err::<String, DatabaseError>(
        DatabaseError::NotFound,
    ))
    &&& (has_account(pre.accounts, uid) ==> {
        let acct = pre.accounts[account_at(pre.accounts, uid)];
        if !is_expiring(acct.expires, now) {
            post == pre && (r matches Ok(t) && t@ == acct.access_token)
        } else {
            match r {
                Ok(t) => exists|resp: TokenResponseV|
                    #![auto]
                    post == apply_refresh_tr(pre, uid, resp) && t@ == resp.access_token,
                Err(e) => e == DatabaseError::RefreshTokenFailure && post == delete_account_tr(
                    pre,
                    uid,
                ).0,
            }
        }
    })
}

/// Relies on str's `PartialEq`: equality of the two string slices'
/// characters.
#[verifier::external_body]
fn str_eq(a: &str, b: &str) -> (r: bool)
    ensures
        r == (a@ == b@),
{
    a == b
}

/// An owned copy of an optional string column.
fn clone_opt_string(s: &Option<String>) -> (r: Option<String>)
    ensures
        r.deep_view() == s.deep_view(),
{
    match s {
        Some(x) => Some(x.clone()),
        None => None,
    }
}

/// Index of the unique user row for `user_id`, if any.
fn find_user_index(users: &Vec<User>, user_id: &str) -> (r: Option<usize>)
    ensures
        match r {
            Some(i) => i < users.len() && users@[i as int]@.id == user_id@,
            None => forall|j: int| 0 <= j < users.len() ==> (#[trigger] users@[j])@.id != user_id@,
        },
{
    let mut i: usize = 0;
    while i < users.len()
        invariant
            i <= users.len(),
            forall|j: int| 0 <= j < i ==> (#[trigger] users@[j])@.id != user_id@,
        decreases users.len() - i,
    {
        if str_eq(users[i].id.as_str(), user_id) {
            return Some(i);
        }
        i += 1;
    }
    None
}

/// Index of the unique account row for `user_id`, if any.
fn find_account_index(accounts: &Vec<Account>, user_id: &str) -> (r: Option<usize>)
    ensures
        match r {
            Some(i) => i < accounts.len() && accounts@[i as int]@.user_id == user_id@,
            None => forall|j: int|
                0 <= j < accounts.len() ==> (#[trigger] accounts@[j])@.user_id != user_id@,
        },
{
    let mut i: usize = 0;
    while i < accounts.len()
        invariant
            i <= accounts.len(),
            forall|j: int| 0 <= j < i ==> (#[trigger] accounts@[j])@.user_id != user_id@,
        decreases accounts.len() - i,
    {
        if str_eq(accounts[i].user_id.as_str(), user_id) {
            return Some(i);
        }
        i += 1;
    }
    None
}

/// Index of the unique link-request row for `user_id`, if any.
fn find_request_index(requests: &Vec<LinkRequest>, user_id: &str) -> (r: Option<usize>)
    ensures
        match r {
            Some(i) => i < requests.len() && requests@[i as int]@.user_id == user_id@,
            None => forall|j: int|
                0 <= j < requests.len() ==> (#[trigger] requests@[j])@.user_id != user_id@,
        },
{
    let mut i: usize = 0;
    while i < requests.len()
        invariant
            i <= requests.len(),
            forall|j: int| 0 <= j < i ==> (#[trigger] requests@[j])@.user_id != user_id@,
        decreases requests.len() - i,
    {
        if str_eq(requests[i].user_id.as_str(), user_id) {
            return Some(i);
        }
        i += 1;
    }
    None
}

impl Database {
    /// Open the store for the backend at `url`.  The in-memory state starts
    /// out empty; the caller's edge code dials the backend, builds the
    /// single-connection pool and runs the schema migrations before any row
    /// is served (a migration failure is fatal there, never degraded).
    pub fn connect_with_url(url: &str) -> (r: Result<Database, DatabaseError>)
        ensures
            r matches Ok(db) && db@ == (StoreV {
                users: Seq::<UserV>::empty(),
                accounts: Seq::<AccountV>::empty(),
                requests: Seq::<RequestV>::empty(),
            }),
            r matches Ok(db) && db@.wf(),
    {
        let db = Database { users: Vec::new(), accounts: Vec::new(), requests: Vec::new() };
        proof {
            assert(db@.users =~= Seq::<UserV>::empty());
            assert(db@.accounts =~= Seq::<AccountV>::empty());
            assert(db@.requests =~= Seq::<RequestV>::empty());
        }
        Ok(db)
    }

    /// Open the store with the backend named by the configuration.
    pub fn connect(config: &crate::config::Config) -> (r: Result<Database, DatabaseError>)
        ensures
            r matches Ok(db) && db@ == (StoreV {
                users: Seq::<UserV>::empty(),
                accounts: Seq::<AccountV>::empty(),
                requests: Seq::<RequestV>::empty(),
            }),
            r matches Ok(db) && db@.wf(),
    {
        Database::connect_with_url(config.database_url())
    }

    // -----------------------------------------------------------------------
    // User operations
    // -----------------------------------------------------------------------

    /// The user row for `user_id`, or `NotFound`.
    pub fn get_user(&self, user_id: &str) -> (r: Result<User, DatabaseError>)
        requires
            self@.wf(),
        ensures
            same_user_result(r, get_user_tr(self@, user_id@)),
            r is Ok <==> has_user(self@.users, user_id@),
    {
        match find_user_index(&self.users, user_id) {
            Some(i) => {
                proof {
                    lemma_user_found(self@, user_id@, i as int);
                }
                let row = &self.users[i];
                Ok(User { id: row.id.clone(), device_name: clone_opt_string(&row.device_name) })
            },
            None => {
                proof {
                    if has_user(self@.users, user_id@) {
                        let k = user_at(self@.users, user_id@);
                        assert(self@.users[k] == self.users@[k]@);
                        assert(false);
                    }
                }
                Err(DatabaseError::NotFound)
            },
        }
    }

    /// Insert a fresh user row; `Conflict` if the identifier already exists.
    pub fn create_user(&mut self, user_id: &str) -> (r: Result<User, DatabaseError>)
        requires
            old(self)@.wf(),
        ensures
            final(self)@.wf(),
            ({
                let (s2, res) = create_user_tr(old(self)@, user_id@);
                final(self)@ == s2 && same_user_result(r, res)
            }),
    {
        match find_user_index(&self.users, user_id) {
            Some(i) => {
                proof {
                    lemma_user_found(self@, user_id@, i as int);
                }
                Err(DatabaseError::Conflict)
            },
            None => {
                proof {
                    if has_user(self@.users, user_id@) {
                        let k = user_at(self@.users, user_id@);
                        assert(self@.users[k] == self.users@[k]@);
                        assert(false);
                    }
                }
                let row = User { id: user_id.to_owned(), device_name: None };
                let copy = User { id: row.id.clone(), device_name: None };
                let ghost pre = self@;
                self.users.push(row);
                proof {
                    assert(self@.users =~= pre.users.push(copy@));
                    assert(self@ =~= (StoreV { users: pre.users.push(copy@), ..pre }));
                    lemma_user_push_wf(pre, copy@);
                }
                Ok(copy)
            },
        }
    }

    /// The user row for `user_id`, created first if it does not exist.  Only
    /// `NotFound` from the lookup falls through to creation, so for a
    /// well-formed store this never reports `Conflict`.
    pub fn get_or_create_user(&mut self, user_id: &str) -> (r: Result<User, DatabaseError>)
        requires
            old(self)@.wf(),
        ensures
            final(self)@.wf(),
            ({
                let (s2, res) = get_or_create_user_tr(old(self)@, user_id@);
                final(self)@ == s2 && same_user_result(r, res)
            }),
            r is Ok,
    {
        match self.get_user(user_id) {
            Err(DatabaseError::NotFound) => self.create_user(user_id),
            result => result,
        }
    }

    /// Delete the user row for `user_id`; the number of rows affected.
    pub fn delete_user(&mut self, user_id: &str) -> (r: Result<usize, DatabaseError>)
        requires
            old(self)@.wf(),
        ensures
            final(self)@.wf(),
            ({
                let (s2, n) = delete_user_tr(old(self)@, user_id@);
                final(self)@ == s2 && (r matches Ok(count) && count == n)
            }),
    {
        match find_user_index(&self.users, user_id) {
            Some(i) => {
                proof {
                    lemma_user_found(self@, user_id@, i as int);
                }
                let ghost pre = self@;
                self.users.remove(i);
                proof {
                    assert(self@.users =~= pre.users.remove(i as int));
                    assert(self@ =~= (StoreV { users: pre.users.remove(i as int), ..pre }));
                    lemma_user_remove_wf(pre, i as int);
                }
                Ok(1)
            },
            None => {
                proof {
                    if has_user(self@.users, user_id@) {
                        let k = user_at(self@.users, user_id@);
                        assert(self@.users[k] == self.users@[k]@);
                        assert(false);
                    }
                }
                Ok(0)
            },
        }
    }

    /// Set the device label on the user row for `user_id`.  Matching zero
    /// rows is a successful no-op: the caller cannot distinguish "not found"
    /// from "updated".
    pub fn update_device_name(&mut self, user_id: &str, device_name: &str) -> (r: Result<
        (),
        DatabaseError,
    >)
        requires
            old(self)@.wf(),
        ensures
            final(self)@.wf(),
            final(self)@ == update_device_name_tr(old(self)@, user_id@, device_name@),
            r is Ok,
    {
        match find_user_index(&self.users, user_id) {
            Some(i) => {
                proof {
                    lemma_user_found(self@, user_id@, i as int);
                }
                let row = User { id: user_id.to_owned(), device_name: Some(device_name.to_owned()) };
                let ghost pre = self@;
                let ghost rowv = row@;
                self.users.set(i, row);
                proof {
                    assert(self@.users =~= pre.users.update(i as int, rowv));
                    assert(self@ =~= (StoreV { users: pre.users.update(i as int, rowv), ..pre }));
                    lemma_user_update_wf(pre, i as int, rowv);
                }
                Ok(())
            },
            None => {
                proof {
                    if has_user(self@.users, user_id@) {
                        let k = user_at(self@.users, user_id@);
                        assert(self@.users[k] == self.users@[k]@);
                        assert(false);
                    }
                }
                Ok(())
            },
        }
    }

    // -----------------------------------------------------------------------
    // Account operations
    // -----------------------------------------------------------------------

    /// The linked-account row for `user_id`, or `NotFound`.
    pub fn get_account(&self, user_id: &str) -> (r: Result<Account, DatabaseError>)
        requires
            self@.wf(),
        ensures
            same_account_result(r, get_account_tr(self@, user_id@)),
            r is Ok <==> has_account(self@.accounts, user_id@),
    {
        match find_account_index(&self.accounts, user_id) {
            Some(i) => {
                proof {
                    lemma_account_found(self@, user_id@, i as int);
                }
                let row = &self.accounts[i];
                Ok(
                    Account {
                        user_id: row.user_id.clone(),
                        access_token: row.access_token.clone(),
                        refresh_token: row.refresh_token.clone(),
                        expires: row.expires,
                        session_token: clone_opt_string(&row.session_token),
                    },
                )
            },
            None => {
                proof {
                    if has_account(self@.accounts, user_id@) {
                        let k = account_at(self@.accounts, user_id@);
                        assert(self@.accounts[k] == self.accounts@[k]@);
                        assert(false);
                    }
                }
                Err(DatabaseError::NotFound)
            },
        }
    }

    /// Delete the linked-account row for `user_id`; the number of rows
    /// affected.
    pub fn delete_account(&mut self, user_id: &str) -> (r: Result<usize, DatabaseError>)
        requires
            old(self)@.wf(),
        ensures
            final(self)@.wf(),
            ({
                let (s2, n) = delete_account_tr(old(self)@, user_id@);
                final(self)@ == s2 && (r matches Ok(count) && count == n)
            }),
    {
        match find_account_index(&self.accounts, user_id) {
            Some(i) => {
                proof {
                    lemma_account_found(self@, user_id@, i as int);
                }
                let ghost pre = self@;
                self.accounts.remove(i);
                proof {
                    assert(self@.accounts =~= pre.accounts.remove(i as int));
                    assert(self@ =~= (StoreV { accounts: pre.accounts.remove(i as int), ..pre }));
                    lemma_account_remove_wf(pre, i as int);
                }
                Ok(1)
            },
            None => {
                proof {
                    if has_account(self@.accounts, user_id@) {
                        let k = account_at(self@.accounts, user_id@);
                        assert(self@.accounts[k] == self.accounts@[k]@);
                        assert(false);
                    }
                }
                Ok(0)
            },
        }
    }

    /// Set or clear the auxiliary session token on the account row for
    /// `user_id`.  Matching zero rows is a successful no-op.
    pub fn update_session_token(&mut self, user_id: &str, session_token: Option<String>) -> (r:
        Result<(), DatabaseError>)
        requires
            old(self)@.wf(),
        ensures
            final(self)@.wf(),
            final(self)@ == update_session_token_tr(
                old(self)@,
                user_id@,
                session_token.deep_view(),
            ),
            r is Ok,
    {
        match find_account_index(&self.accounts, user_id) {
            Some(i) => {
                proof {
                    lemma_account_found(self@, user_id@, i as int);
                }
                let row = &self.accounts[i];
                let new_row = Account {
                    user_id: row.user_id.clone(),
                    access_token: row.access_token.clone(),
                    refresh_token: row.refresh_token.clone(),
                    expires: row.expires,
                    session_token,
                };
                let ghost pre = self@;
                let ghost rowv = new_row@;
                self.accounts.set(i, new_row);
                proof {
                    assert(self@.accounts =~= pre.accounts.update(i as int, rowv));
                    assert(self@ =~= (StoreV {
                        accounts: pre.accounts.update(i as int, rowv),
                        ..pre
                    }));
                    lemma_account_update_wf(pre, i as int, rowv);
                }
                Ok(())
            },
            None => {
                proof {
                    if has_account(self@.accounts, user_id@) {
                        let k = account_at(self@.accounts, user_id@);
                        assert(self@.accounts[k] == self.accounts@[k]@);
                        assert(false);
                    }
                }
                Ok(())
            },
        }
    }

    /// Write the account row for `user_id`: the path the external linking
    /// flow uses when the user completes authorization.  A fresh row starts
    /// without a session token; re-linking overwrites the credentials and
    /// keeps the session token.
    pub fn upsert_account(
        &mut self,
        user_id: &str,
        access_token: String,
        refresh_token: String,
        expires: i64,
    ) -> (r: Result<(), DatabaseError>)
        requires
            old(self)@.wf(),
        ensures
            final(self)@.wf(),
            final(self)@ == upsert_account_tr(
                old(self)@,
                user_id@,
                access_token@,
                refresh_token@,
                expires,
            ),
            r is Ok,
    {
        match find_account_index(&self.accounts, user_id) {
            Some(i) => {
                proof {
                    lemma_account_found(self@, user_id@, i as int);
                }
                let session_token = clone_opt_string(&self.accounts[i].session_token);
                let new_row = Account {
                    user_id: user_id.to_owned(),
                    access_token,
                    refresh_token,
                    expires,
                    session_token,
                };
                let ghost pre = self@;
                let ghost rowv = new_row@;
                self.accounts.set(i, new_row);
                proof {
                    assert(self@.accounts =~= pre.accounts.update(i as int, rowv));
                    assert(self@ =~= (StoreV {
                        accounts: pre.accounts.update(i as int, rowv),
                        ..pre
                    }));
                    lemma_account_update_wf(pre, i as int, rowv);
                }
                Ok(())
            },
            None => {
                proof {
                    if has_account(self@.accounts, user_id@) {
                        let k = account_at(self@.accounts, user_id@);
                        assert(self@.accounts[k] == self.accounts@[k]@);
                        assert(false);
                    }
                }
                let new_row = Account {
                    user_id: user_id.to_owned(),
                    access_token,
                    refresh_token,
                    expires,
                    session_token: None,
                };
                let ghost pre = self@;
                let ghost rowv = new_row@;
                self.accounts.push(new_row);
                proof {
                    assert(self@.accounts =~= pre.accounts.push(rowv));
                    assert(self@ =~= (StoreV { accounts: pre.accounts.push(rowv), ..pre }));
                    lemma_account_push_wf(pre, rowv);
                }
                Ok(())
            },
        }
    }

    // -----------------------------------------------------------------------
    // Link-request operations
    // -----------------------------------------------------------------------

    /// The pending link-request row for `user_id`, or `NotFound`.
    pub fn get_request(&self, user_id: &str) -> (r: Result<LinkRequest, DatabaseError>)
        requires
            self@.wf(),
        ensures
            same_request_result(r, get_request_tr(self@, user_id@)),
            r is Ok <==> has_request(self@.requests, user_id@),
    {
        match find_request_index(&self.requests, user_id) {
            Some(i) => {
                proof {
                    lemma_request_found(self@, user_id@, i as int);
                }
                let row = &self.requests[i];
                Ok(
                    LinkRequest {
                        user_id: row.user_id.clone(),
                        token: row.token.clone(),
                        expires: row.expires,
                    },
                )
            },
            None => {
                proof {
                    if has_request(self@.requests, user_id@) {
                        let k = request_at(self@.requests, user_id@);
                        assert(self@.requests[k] == self.requests@[k]@);
                        assert(false);
                    }
                }
                Err(DatabaseError::NotFound)
            },
        }
    }

    /// The upsert behind `create_request`, with the generated token and
    /// expiry passed in: sets `token` and `expires` on the unique row for
    /// `user_id`, creating it when absent — never a second live request for
    /// one user.
    pub fn create_request_with(&mut self, user_id: &str, token: String, expires: i64) -> (r:
        LinkRequest)
        requires
            old(self)@.wf(),
        ensures
            final(self)@.wf(),
            ({
                let (s2, row) = create_request_tr(old(self)@, user_id@, token@, expires);
                final(self)@ == s2 && r@ == row
            }),
    {
        let new_row = LinkRequest { user_id: user_id.to_owned(), token: token.clone(), expires };
        let copy = LinkRequest { user_id: user_id.to_owned(), token, expires };
        let ghost rowv = new_row@;
        match find_request_index(&self.requests, user_id) {
            Some(i) => {
                proof {
                    lemma_request_found(self@, user_id@, i as int);
                }
                let ghost pre = self@;
                self.requests.set(i, new_row);
                proof {
                    assert(self@.requests =~= pre.requests.update(i as int, rowv));
                    assert(self@ =~= (StoreV {
                        requests: pre.requests.update(i as int, rowv),
                        ..pre
                    }));
                    lemma_request_update_wf(pre, i as int, rowv);
                }
                copy
            },
            None => {
                proof {
                    if has_request(self@.requests, user_id@) {
                        let k = request_at(self@.requests, user_id@);
                        assert(self@.requests[k] == self.requests@[k]@);
                        assert(false);
                    }
                }
                let ghost pre = self@;
                self.requests.push(new_row);
                proof {
                    assert(self@.requests =~= pre.requests.push(rowv));
                    assert(self@ =~= (StoreV { requests: pre.requests.push(rowv), ..pre }));
                    lemma_request_push_wf(pre, rowv);
                }
                copy
            },
        }
    }

    /// Create (or replace) the pending link request for `user_id`: a fresh
    /// 64-character random alphanumeric token with a one-hour expiry.
    ///
    /// This operation must not pass through the retry policy: re-running it
    /// on a false-positive retry would silently mint and discard a second
    /// random token.  It runs once; a transient backend error surfaces to the
    /// caller, who may retry at the command layer — each attempt generates a
    /// fresh token, which is safe.
    pub fn create_request(&mut self, user_id: &str) -> (r: Result<LinkRequest, DatabaseError>)
        requires
            old(self)@.wf(),
        ensures
            final(self)@.wf(),
            r matches Ok(req) && ({
                &&& req@.token.len() == TOKEN_LENGTH
                &&& forall|i: int|
                    0 <= i < req@.token.len() ==> is_token_char(#[trigger] req@.token[i])
                &&& exists|now: i64| #![auto] 0 <= now && req@.expires == link_expiry(now)
                &&& final(self)@ == create_request_tr(
                    old(self)@,
                    user_id@,
                    req@.token,
                    req@.expires,
                ).0
                &&& req@ == create_request_tr(old(self)@, user_id@, req@.token, req@.expires).1
            }),
    {
        let token = random_alphanumeric(TOKEN_LENGTH);
        let now = now_unix();
        let expires: i64 = if now <= i64::MAX - 3600 {
            now + 3600
        } else {
            i64::MAX
        };
        let ghost tokv = token@;
        let req = self.create_request_with(user_id, token, expires);
        proof {
            assert(req@.token == tokv);
            assert(req@.expires == link_expiry(now));
            assert(0 <= now && req@.expires == link_expiry(now));
        }
        Ok(req)
    }

    // -----------------------------------------------------------------------
    // The refresh protocol
    // -----------------------------------------------------------------------

    /// Persist a successful exchange into the account row at `i`.
    fn apply_exchange_at(&mut self, i: usize, resp: TokenResponse)
        requires
            old(self)@.wf(),
            i < old(self)@.accounts.len(),
        ensures
            final(self)@.wf(),
            final(self)@ == (StoreV {
                accounts: old(self)@.accounts.update(
                    i as int,
                    refresh_account_v(old(self)@.accounts[i as int], resp@),
                ),
                ..old(self)@
            }),
    {
        let ghost respv = resp@;
        let row = &self.accounts[i];
        let new_refresh: String = match resp.refresh_token {
            Some(rt) => rt,
            None => row.refresh_token.clone(),
        };
        let new_row = Account {
            user_id: row.user_id.clone(),
            access_token: resp.access_token,
            refresh_token: new_refresh,
            expires: resp.expires_at,
            session_token: clone_opt_string(&row.session_token),
        };
        let ghost pre = self@;
        let ghost rowv = new_row@;
        proof {
            assert(rowv =~= refresh_account_v(pre.accounts[i as int], respv));
        }
        self.accounts.set(i, new_row);
        proof {
            assert(self@.accounts =~= pre.accounts.update(i as int, rowv));
            assert(self@ =~= (StoreV { accounts: pre.accounts.update(i as int, rowv), ..pre }));
            lemma_account_update_wf(pre, i as int, rowv);
        }
    }

    /// The access token for `user_id`'s linked account, measured against the
    /// moment `now`.
    ///
    /// The stored token is returned unchanged while it has more than a minute
    /// of validity left.  An expiring token is refreshed through one exchange
    /// round trip: on success the renewed credentials are persisted before
    /// the fresh token is returned; on failure the dead link's account row is
    /// deleted (best-effort cleanup) and the caller sees
    /// `RefreshTokenFailure`.
    pub fn get_access_token_at<E: TokenExchanger>(
        &mut self,
        user_id: &str,
        now: i64,
        exchanger: &mut E,
    ) -> (r: Result<String, DatabaseError>)
        requires
            old(self)@.wf(),
        ensures
            access_token_post(old(self)@, final(self)@, user_id@, now, r),
            !has_account(old(self)@.accounts, user_id@) ==> *final(exchanger) == *old(exchanger),
            has_account(old(self)@.accounts, user_id@) && !is_expiring(
                get_account_v(old(self)@.accounts, user_id@).unwrap().expires,
                now,
            ) ==> *final(exchanger) == *old(exchanger),
    {
        let i = match find_account_index(&self.accounts, user_id) {
            Some(i) => {
                proof {
                    lemma_account_found(self@, user_id@, i as int);
                }
                i
            },
            None => {
                proof {
                    if has_account(self@.accounts, user_id@) {
                        let k = account_at(self@.accounts, user_id@);
                        assert(self@.accounts[k] == self.accounts@[k]@);
                        assert(false);
                    }
                }
                return Err(DatabaseError::NotFound);
            },
        };
        let expires = self.accounts[i].expires;
        if !((expires as i128) <= (now as i128) + 60) {
            // More than a minute of validity left: hand back the stored token.
            return Ok(self.accounts[i].access_token.clone());
        }
        let refresh_token = self.accounts[i].refresh_token.clone();
        match exchanger.exchange(refresh_token.as_str()) {
            Some(resp) => {
                let token_out = resp.access_token.clone();
                let ghost respv = resp@;
                let ghost pre = self@;
                self.apply_exchange_at(i, resp);
                proof {
                    assert(self@ == apply_refresh_tr(pre, user_id@, respv));
                }
                Ok(token_out)
            },
            None => {
                // The link is dead: best-effort cleanup of the account row,
                // then report the failure itself.
                let ghost pre = self@;
                self.accounts.remove(i);
                proof {
                    assert(self@.accounts =~= pre.accounts.remove(i as int));
                    assert(self@ =~= (StoreV { accounts: pre.accounts.remove(i as int), ..pre }));
                    lemma_account_remove_wf(pre, i as int);
                }
                Err(DatabaseError::RefreshTokenFailure)
            },
        }
    }

    /// The access token for `user_id`'s linked account, measured against the
    /// clock: the expiring/fresh decision is [`Self::get_access_token_at`]'s,
    /// taken at the current moment.
    pub fn get_access_token<E: TokenExchanger>(&mut self, user_id: &str, exchanger: &mut E) -> (r:
        Result<String, DatabaseError>)
        requires
            old(self)@.wf(),
        ensures
            final(self)@.wf(),
            exists|now: i64|
                #![auto]
                0 <= now && access_token_post(old(self)@, final(self)@, user_id@, now, r),
            !has_account(old(self)@.accounts, user_id@) ==> *final(exchanger) == *old(exchanger)
                && final(self)@ == old(self)@ && r == Err::<String, DatabaseError>(
                DatabaseError::NotFound,
            ),
    {
        let now = now_unix();
        self.get_access_token_at(user_id, now, exchanger)
    }
}

} // verus!
