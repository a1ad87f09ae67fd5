//! End-to-end login flow: credential check, cache lookup, token issuance,
//! cache population — and the protected-route check.
//!
//! The whole flow is specified by [`login_outcome`], a function from the
//! cache contents, the credentials, the key and the instant to the returned
//! result and the new cache contents. [`login`] is proved to follow it
//! exactly.

use vstd::prelude::*;
use vstd::string::StringExecFns;

use crate::cache::TokenCache;
use crate::clock::current_timestamp;
use crate::codec::Claims;
use crate::codec::TOKEN_TTL_SECONDS;
use crate::codec::encode;
use crate::codec::decode;
use crate::codec::decode_outcome;
use crate::codec::token_live;
use crate::codec::token_of;
use crate::errors::Error;

verus! {

/// A login request as it arrives at the boundary: transient credentials,
/// never persisted.
#[derive(Clone, Debug)]
pub struct LoginRequest {
    pub username: String,
    pub password: String,
}

/// The credentials the stub backend accepts.
pub open spec fn credentials_valid(username: Seq<char>, password: Seq<char>) -> bool {
    username == "admin"@ && password == "password"@
}

/// The subject the stub backend reports for the one accepted credential
/// pair.
pub open spec fn issued_subject() -> Seq<char> {
    "user_id_example"@
}

/// The credential check: a stub equality test standing in for a pluggable
/// authentication backend. Accepts exactly one credential pair and reports
/// the subject it authenticates; any other pair is rejected, and nothing
/// else is touched.
pub fn authenticate_user(login_request: LoginRequest) -> (r: Result<String, Error>)
    ensures
        credentials_valid(login_request.username@, login_request.password@) ==> (r matches Ok(s)
            && s@ == issued_subject()),
        !credentials_valid(login_request.username@, login_request.password@) ==> r == Err::<
            String,
            Error,
        >(Error::AuthenticationFailed),
{
    if login_request.username == String::from_str("admin") && login_request.password
        == String::from_str("password") {
        Ok(String::from_str("user_id_example"))
    } else {
        Err(Error::AuthenticationFailed)
    }
}

/// The outcome the login flow owes for given cache contents, credentials,
/// key and instant: the result handed to the caller, and the cache contents
/// the flow leaves behind.
///
/// Invalid credentials are rejected before the cache is consulted. Valid
/// credentials first look for a live cached token, which is returned
/// unchanged — no re-signing, no TTL extension. On a miss, a fresh token
/// over the fixed TTL is minted and installed; if its expiry would not fit
/// in the timestamp type, issuance fails and the cache is left untouched.
pub open spec fn login_outcome(
    entries: Map<Seq<char>, Seq<char>>,
    username: Seq<char>,
    password: Seq<char>,
    key: Seq<u8>,
    now: u64,
) -> (Result<Seq<char>, Error>, Map<Seq<char>, Seq<char>>) {
    if !credentials_valid(username, password) {
        (Err(Error::AuthenticationFailed), entries)
    } else if entries.contains_key(issued_subject()) && token_live(
        entries[issued_subject()],
        key,
        now,
    ) {
        (Ok(entries[issued_subject()]), entries)
    } else if now > u64::MAX - TOKEN_TTL_SECONDS {
        (Err(Error::TokenIssuanceFailed), entries)
    } else {
        let token = token_of(issued_subject(), (now + TOKEN_TTL_SECONDS) as u64, key);
        (Ok(token), entries.insert(issued_subject(), token))
    }
}

/// The relation [`login`] establishes between its inputs, its result and
/// the cache contents it leaves behind: exactly [`login_outcome`].
pub open spec fn login_post(
    entries: Map<Seq<char>, Seq<char>>,
    username: Seq<char>,
    password: Seq<char>,
    key: Seq<u8>,
    now: u64,
    r: Result<String, Error>,
    left: Map<Seq<char>, Seq<char>>,
) -> bool {
    let (outcome, entries_after) = login_outcome(entries, username, password, key, now);
    &&& left == entries_after
    &&& match r {
        Ok(t) => outcome == Ok::<Seq<char>, Error>(t@),
        Err(e) => outcome == Err::<Seq<char>, Error>(e),
    }
}

/// The login flow at instant `now`, in order: credential check (on failure
/// the cache is not touched), cache lookup (a live cached token is returned
/// as is), token issuance, cache population. The result and the new cache
/// contents are exactly what [`login_outcome`] states, and a returned token
/// is always live at `now`: the caller is never handed an expired token,
/// whatever the cache held.
pub fn login(
    cache: &mut TokenCache,
    login_request: LoginRequest,
    key: &[u8],
    now: u64,
) -> (r: Result<String, Error>)
    ensures
        login_post(
            old(cache).entries(),
            login_request.username@,
            login_request.password@,
            key@,
            now,
            r,
            final(cache).entries(),
        ),
        r matches Ok(t) ==> token_live(t@, key@, now),
{
    match authenticate_user(login_request) {
        Err(e) => Err(e),
        Ok(subject) => match cache.get(subject.as_str(), key, now) {
            Some(token) => Ok(token),
            None => {
                if now > u64::MAX - TOKEN_TTL_SECONDS {
                    Err(Error::TokenIssuanceFailed)
                } else {
                    let claims = Claims { sub: subject.clone(), exp: now + TOKEN_TTL_SECONDS };
                    let token = encode(&claims, key);
                    cache.put(subject, token.clone());
                    Ok(token)
                }
            },
        },
    }
}

/// The login flow at the current instant, read from the process clock.
pub fn login_now(cache: &mut TokenCache, login_request: LoginRequest, key: &[u8]) -> (r: Result<
    String,
    Error,
>)
    ensures
        exists|now: u64|
            #[trigger] login_post(
                old(cache).entries(),
                login_request.username@,
                login_request.password@,
                key@,
                now,
                r,
                final(cache).entries(),
            ),
{
    let now = current_timestamp();
    login(cache, login_request, key, now)
}

/// The protected-route check: verifies a presented token under the process
/// key at instant `now` and returns the subject it certifies, or the decode
/// error. The cache is never consulted — tokens are self-certifying.
pub fn authorize(token: &str, key: &[u8], now: u64) -> (r: Result<String, Error>)
    ensures
        match r {
            Ok(s) => decode_outcome(token@, key@, now) matches Ok(p) && p.0 == s@,
            Err(e) => decode_outcome(token@, key@, now) == Err::<(Seq<char>, u64), Error>(e),
        },
{
    match decode(token, key, now) {
        Ok(claims) => Ok(claims.sub),
        Err(e) => Err(e),
    }
}

/// Cache idempotence: when a login at `first_now` succeeds with some token,
/// a second login with the same credentials made at `second_now` — any
/// instant at which that token is still live — is a pure cache hit: it
/// returns the very same token and leaves the cache exactly as the first
/// login left it.
pub proof fn lemma_cache_idempotent(
    entries: Map<Seq<char>, Seq<char>>,
    username: Seq<char>,
    password: Seq<char>,
    key: Seq<u8>,
    first_now: u64,
    second_now: u64,
)
    requires
        login_outcome(entries, username, password, key, first_now).0 is Ok,
        token_live(
            login_outcome(entries, username, password, key, first_now).0.unwrap(),
            key,
            second_now,
        ),
    ensures
        login_outcome(
            login_outcome(entries, username, password, key, first_now).1,
            username,
            password,
            key,
            second_now,
        ) == login_outcome(entries, username, password, key, first_now),
{
    let (first_result, after_first) = login_outcome(entries, username, password, key, first_now);
    assert(credentials_valid(username, password));
    assert(after_first.contains_key(issued_subject()));
    assert(after_first[issued_subject()] == first_result.unwrap());
}

} // verus!
