//! Store-wide laws, proved once over the model transitions that the
//! repository operations realise.

use vstd::prelude::*;

use crate::model::{
    account_at, apply_refresh_tr, create_request_tr, delete_account_tr, get_account_v,
    get_or_create_user_tr, get_request_v, has_account, has_request, has_user,
    lemma_account_found, lemma_account_remove_wf, lemma_account_update_wf, lemma_request_found,
    lemma_request_push_wf, lemma_request_update_wf, lemma_user_found, lemma_user_push_wf,
    refresh_account_v, request_at, user_at, AccountV, RequestV, StoreV, TokenResponseV, UserV,
};

verus! {

/// Law: fetching-or-creating a user is idempotent.  For a well-formed store
/// and any identifier, the first call yields the row for that identifier
/// (freshly created when absent), and a second call — which in a sequential
/// history is also what either of two racing callers observes last — yields
/// exactly the same row again: the same identifier, never a conflict, and no
/// further change to the store.
pub proof fn lemma_get_or_create_user_idempotent(s: StoreV, id: Seq<char>)
    requires
        s.wf(),
    ensures
        ({
            let (s1, r1) = get_or_create_user_tr(s, id);
            let (s2, r2) = get_or_create_user_tr(s1, id);
            &&& s1.wf()
            &&& (r1 matches Ok(u1) && u1.id == id)
            &&& s2 == s1
            &&& r2 == r1
        }),
{
    let (s1, r1) = get_or_create_user_tr(s, id);
    if has_user(s.users, id) {
        let k = user_at(s.users, id);
        assert(s.users[k].id == id);
    } else {
        let u = UserV { id, device_name: None };
        lemma_user_push_wf(s, u);
        assert(s1.users == s.users.push(u));
        assert(s1.users[s.users.len() as int] == u);
        lemma_user_found(s1, id, s.users.len() as int);
    }
}

/// Law: creating a link request replaces, never duplicates.  For a
/// well-formed store, two successive creations for one user leave exactly
/// one row for that user — the second call adds no row — and that row
/// carries the second call's token and expiry.
pub proof fn lemma_create_request_replaces(
    s: StoreV,
    id: Seq<char>,
    token1: Seq<char>,
    expires1: i64,
    token2: Seq<char>,
    expires2: i64,
)
    requires
        s.wf(),
    ensures
        ({
            let (s1, r1) = create_request_tr(s, id, token1, expires1);
            let (s2, r2) = create_request_tr(s1, id, token2, expires2);
            &&& s1.wf()
            &&& s2.wf()
            &&& r2 == (RequestV { user_id: id, token: token2, expires: expires2 })
            &&& get_request_v(s2.requests, id) == Some(r2)
            &&& s2.requests.len() == s1.requests.len()
            &&& forall|i: int, j: int|
                #![trigger s2.requests[i], s2.requests[j]]
                0 <= i < j < s2.requests.len() ==> !(s2.requests[i].user_id == id
                    && s2.requests[j].user_id == id)
        }),
{
    let row1 = RequestV { user_id: id, token: token1, expires: expires1 };
    let row2 = RequestV { user_id: id, token: token2, expires: expires2 };
    let (s1, r1) = create_request_tr(s, id, token1, expires1);
    let idx: int;
    if has_request(s.requests, id) {
        let at = request_at(s.requests, id);
        assert(s.requests[at].user_id == id);
        lemma_request_update_wf(s, at, row1);
        assert(s1.requests[at] == row1);
        idx = at;
    } else {
        lemma_request_push_wf(s, row1);
        assert(s1.requests[s.requests.len() as int] == row1);
        idx = s.requests.len() as int;
    }
    lemma_request_found(s1, id, idx);
    let (s2, r2) = create_request_tr(s1, id, token2, expires2);
    lemma_request_update_wf(s1, idx, row2);
    assert(s2.requests[idx] == row2);
    lemma_request_found(s2, id, idx);
}

/// Law: persisting a successful exchange stores exactly the exchange result.
/// For a well-formed store with a linked account, the renewed row keeps its
/// key and session token, carries the response's access token and expiry,
/// and carries the response's refresh token when the provider rotated it —
/// the prior one otherwise.  Every other row, in every table, is untouched.
pub proof fn lemma_refresh_persists_exchange_result(s: StoreV, id: Seq<char>, resp: TokenResponseV)
    requires
        s.wf(),
        has_account(s.accounts, id),
    ensures
        ({
            let prior = get_account_v(s.accounts, id).unwrap();
            let s2 = apply_refresh_tr(s, id, resp);
            &&& s2.wf()
            &&& s2.users == s.users
            &&& s2.requests == s.requests
            &&& s2.accounts.len() == s.accounts.len()
            &&& get_account_v(s2.accounts, id) == Some(
                AccountV {
                    user_id: id,
                    access_token: resp.access_token,
                    refresh_token: match resp.refresh_token {
                        Some(rt) => rt,
                        None => prior.refresh_token,
                    },
                    expires: resp.expires_at,
                    session_token: prior.session_token,
                },
            )
            &&& forall|j: int|
                0 <= j < s.accounts.len() && j != account_at(s.accounts, id)
                    ==> #[trigger] s2.accounts[j] == s.accounts[j]
        }),
{
    let at = account_at(s.accounts, id);
    assert(0 <= at < s.accounts.len() && s.accounts[at].user_id == id);
    let prior = s.accounts[at];
    let renewed = refresh_account_v(prior, resp);
    lemma_account_update_wf(s, at, renewed);
    let s2 = apply_refresh_tr(s, id, resp);
    assert(s2.accounts[at] == renewed);
    lemma_account_found(s2, id, at);
    assert(renewed =~= (AccountV {
        user_id: id,
        access_token: resp.access_token,
        refresh_token: match resp.refresh_token {
            Some(rt) => rt,
            None => prior.refresh_token,
        },
        expires: resp.expires_at,
        session_token: prior.session_token,
    }));
}

/// Law: deleting an account removes the key — afterwards the user has no
/// linked account — and touches nothing else; the reported row count says
/// exactly whether an account was there.
pub proof fn lemma_delete_account_removes(s: StoreV, id: Seq<char>)
    requires
        s.wf(),
    ensures
        ({
            let (s2, n) = delete_account_tr(s, id);
            &&& s2.wf()
            &&& !has_account(s2.accounts, id)
            &&& s2.users == s.users
            &&& s2.requests == s.requests
            &&& (n == 1 <==> has_account(s.accounts, id))
            &&& (n == 0 <==> !has_account(s.accounts, id))
        }),
{
    if has_account(s.accounts, id) {
        let at = account_at(s.accounts, id);
        assert(0 <= at < s.accounts.len() && s.accounts[at].user_id == id);
        lemma_account_remove_wf(s, at);
    }
}

} // verus!
