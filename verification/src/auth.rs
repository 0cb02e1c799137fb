//! The credential cache: a token is taken from the store while it is fresh,
//! and asked of the service, then cached with a new expiry, once it is not.
use vstd::prelude::*;
use crate::remote::{
    FailureKind, RemoteError, TokenResponse, granted_token, is_success, network_failure,
    refusal_detail, token_from_response,
};
use crate::store::{Store, StoreState, get_local_token, update_token};

verus! {

/// How long a token is used after it was granted: fifty minutes, in
/// nanoseconds. The service's own lifetime is longer; the margin keeps the
/// agent from presenting a token at the moment it lapses.
pub const TOKEN_LIFETIME: i64 = 3_000_000_000_000;

/// The expiry of a token granted at `now`, held at the latest moment that
/// can be written where the sum would pass it.
pub open spec fn expiry_after(now: i64) -> i64 {
    if now > i64::MAX - TOKEN_LIFETIME {
        i64::MAX
    } else {
        (now + TOKEN_LIFETIME) as i64
    }
}

/// Whether the token endpoint's answer grants a token.
pub open spec fn grants(answer: Result<TokenResponse, String>) -> bool {
    answer is Ok && is_success(answer->Ok_0.status)
}

/// The failure that an answer without a grant stands for.
pub open spec fn token_failure(answer: Result<TokenResponse, String>) -> (FailureKind, Seq<char>) {
    match answer {
        Ok(response) => (FailureKind::Auth, refusal_detail(response.status_message)),
        Err(detail) => (FailureKind::Network, detail@),
    }
}

/// Whether a caller gets a token at `now`: from the cache, or else from the
/// endpoint.
pub open spec fn obtains_token(s: StoreState, now: i64, answer: Result<TokenResponse, String>) -> bool {
    s.fresh_token(now) is Some || grants(answer)
}

/// The token that the caller gets, where it gets one.
pub open spec fn token_at(s: StoreState, now: i64, answer: Result<TokenResponse, String>) -> Seq<char> {
    if s.fresh_token(now) is Some {
        s.fresh_token(now)->0
    } else {
        granted_token(answer->Ok_0)
    }
}

/// The store after a token was asked for at `now`: unchanged while the
/// cached one is fresh; holding the granted one otherwise; and without a
/// credential where none was granted.
pub open spec fn after_get_token(s: StoreState, now: i64, answer: Result<TokenResponse, String>) -> StoreState {
    if s.fresh_token(now) is Some {
        s
    } else if grants(answer) {
        s.with_credential(granted_token(answer->Ok_0), expiry_after(now))
    } else {
        s.without_credential()
    }
}

/// The expiry of a token granted at `now`.
pub fn expiry(now: i64) -> (e: i64)
    ensures
        e == expiry_after(now),
{
    if now > i64::MAX - TOKEN_LIFETIME {
        i64::MAX
    } else {
        now + TOKEN_LIFETIME
    }
}

/// Takes the token endpoint's answer: a granted token is cached with its
/// expiry and returned; any other answer is the failure, and the store
/// stays as it was.
pub fn refresh_token(answer: &Result<TokenResponse, String>, now: i64, store: &mut Store) -> (r: Result<
    String,
    RemoteError,
>)
    ensures
        grants(*answer) ==> r is Ok && r->Ok_0@ == granted_token(answer->Ok_0) && final(store)@ == old(
            store,
        )@.with_credential(granted_token(answer->Ok_0), expiry_after(now)),
        !grants(*answer) ==> r is Err && r->Err_0@ == token_failure(*answer) && final(store)@ == old(
            store,
        )@,
{
    match answer {
        Ok(response) => {
            match token_from_response(response) {
                Ok(token) => {
                    update_token(token.as_str(), expiry(now), store);
                    Ok(token)
                },
                Err(e) => Err(e),
            }
        },
        Err(detail) => Err(network_failure(detail)),
    }
}

/// What asking for a token came to.
pub struct TokenOutcome {
    /// The token, or why there is none.
    pub token: Result<String, RemoteError>,
    /// Whether the token endpoint was asked.
    pub asked: bool,
}

/// The token to present at `now`. `answer` is what the token endpoint
/// answers when it is asked; it is asked once, and only if the cache holds
/// no fresh token.
pub fn get_token(now: i64, answer: &Result<TokenResponse, String>, store: &mut Store) -> (out: TokenOutcome)
    ensures
        final(store)@ == after_get_token(old(store)@, now, *answer),
        out.asked == (old(store)@.fresh_token(now) is None),
        obtains_token(old(store)@, now, *answer) ==> out.token is Ok && out.token->Ok_0@ == token_at(
            old(store)@,
            now,
            *answer,
        ),
        !obtains_token(old(store)@, now, *answer) ==> out.token is Err && out.token->Err_0@
            == token_failure(*answer),
{
    match get_local_token(now, store) {
        Some(token) => TokenOutcome { token: Ok(token), asked: false },
        None => {
            let token = refresh_token(answer, now, store);
            TokenOutcome { token, asked: true }
        },
    }
}

} // verus!
