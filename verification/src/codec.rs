//! Deterministic, keyed transformation between claims and signed tokens.
//!
//! A token is an opaque signed string derived from the claims and a shared
//! secret key. Signing and signature verification are done by the
//! `jsonwebtoken` crate (HMAC-SHA256); what it computes is named by the
//! uninterpreted functions [`token_of`] and [`raw_decode`], and everything
//! around the two calls — in particular the ordering "signature first,
//! expiry second" — is verified.

use vstd::prelude::*;

use crate::errors::Error;

verus! {

/// Fixed validity duration, in whole seconds, applied to every issued token.
pub const TOKEN_TTL_SECONDS: u64 = 60;

/// The signed payload inside a token: the authenticated subject and the
/// whole-second Unix timestamp through which the token is valid.
///
/// A token is valid through its last whole second: it is live at instant
/// `now` exactly when `exp >= now`.
#[derive(Clone, Debug, PartialEq, Eq)]
pub struct Claims {
    /// Opaque identifier of the authenticated principal.
    pub sub: String,
    /// Whole-second Unix timestamp; the token is valid while `exp >= now`.
    pub exp: u64,
}

/// The token that signing claims `(sub, exp)` under `key` produces.
///
/// HMAC-SHA256 signing of a fixed claim layout is a function of its inputs
/// alone, but writing the digest out would state nothing a reader could
/// check; the result is therefore only named.
pub uninterp spec fn token_of(sub: Seq<char>, exp: u64, key: Seq<u8>) -> Seq<char>;

/// What keyed signature verification and claim extraction yield on a token:
/// `Ok((sub, exp))` when the signature verifies under `key` and the payload
/// carries the expected claim shape; `Err(true)` when the signature is
/// rejected; `Err(false)` when the token cannot be parsed into the expected
/// shape. With expiry validation disabled the outcome is a function of the
/// token text and the key alone, so it can be named.
pub uninterp spec fn raw_decode(token: Seq<char>, key: Seq<u8>) -> Result<(Seq<char>, u64), bool>;

/// A token is live at `now` when it verifies under `key` and its expiry has
/// not passed.
pub open spec fn token_live(token: Seq<char>, key: Seq<u8>, now: u64) -> bool {
    match raw_decode(token, key) {
        Ok(p) => p.1 >= now,
        Err(_) => false,
    }
}

/// Keyed verification of `token` accepts it and yields exactly the claims
/// `(sub, exp)`.
pub open spec fn raw_accepts(token: Seq<char>, key: Seq<u8>, sub: Seq<char>, exp: u64) -> bool {
    raw_decode(token, key) == Ok::<(Seq<char>, u64), bool>((sub, exp))
}

/// Keyed verification of `token` fails: because the signature is rejected
/// when `signature_rejected` holds, else because the token cannot be parsed
/// into the expected claim shape.
pub open spec fn raw_fails(token: Seq<char>, key: Seq<u8>, signature_rejected: bool) -> bool {
    raw_decode(token, key) == Err::<(Seq<char>, u64), bool>(signature_rejected)
}

/// The full outcome of verifying `token` under `key` at instant `now`.
/// Signature verification precedes expiry checking: a forged token is
/// reported as `InvalidSignature` even when the timestamp it carries lies in
/// the past.
pub open spec fn decode_outcome(token: Seq<char>, key: Seq<u8>, now: u64) -> Result<
    (Seq<char>, u64),
    Error,
> {
    match raw_decode(token, key) {
        Ok(p) => if p.1 >= now {
            Ok(p)
        } else {
            Err(Error::Expired)
        },
        Err(signature_rejected) => if signature_rejected {
            Err(Error::InvalidSignature)
        } else {
            Err(Error::Malformed)
        },
    }
}

/// Relies on jsonwebtoken::encode: HMAC-SHA256 signing of the claim object
/// `{"exp": exp, "sub": sub}` under `key`. For an HMAC key and a JSON
/// object payload its source shows no failure path, and the result depends
/// on the arguments alone; decoding the result under the same key yields
/// the claims back, which is the crate's documented round trip.
#[verifier::external_body]
fn sign_claims(sub: &str, exp: u64, key: &[u8]) -> (token: String)
    ensures
        token@ == token_of(sub@, exp, key@),
        raw_accepts(token@, key@, sub@, exp),
{
    let mut claims = serde_json::Map::new();
    claims.insert("sub".to_string(), serde_json::Value::String(sub.to_string()));
    claims.insert("exp".to_string(), serde_json::Value::Number(serde_json::Number::from(exp)));
    jsonwebtoken::encode(
        &jsonwebtoken::Header::default(),
        &serde_json::Value::Object(claims),
        &jsonwebtoken::EncodingKey::from_secret(key),
    ).expect("HMAC signing of a JSON object has no failure path")
}

/// Relies on jsonwebtoken::decode with expiry validation switched off: it
/// verifies the HMAC-SHA256 signature, then parses the payload; with no
/// time-dependent validation left, the outcome is a function of the token
/// text and the key alone, named by [`raw_decode`]. Its source reports
/// `InvalidSignature` exactly when the signature does not verify.
#[verifier::external_body]
fn verify_signed(token: &str, key: &[u8]) -> (r: Result<(String, u64), Error>)
    ensures
        match r {
            Ok(p) => raw_decode(token@, key@) == Ok::<(Seq<char>, u64), bool>((p.0@, p.1)),
            Err(e) => (e == Error::InvalidSignature || e == Error::Malformed) && raw_decode(
                token@,
                key@,
            ) == Err::<(Seq<char>, u64), bool>(e == Error::InvalidSignature),
        },
{
    let mut validation = jsonwebtoken::Validation::new(jsonwebtoken::Algorithm::HS256);
    validation.validate_exp = false;
    let key = jsonwebtoken::DecodingKey::from_secret(key);
    match jsonwebtoken::decode::<serde_json::Value>(token, &key, &validation) {
        Ok(d) => match (d.claims.get("sub").and_then(|v| v.as_str()), d.claims.get("exp").and_then(|v| v.as_u64())) {
            (Some(s), Some(e)) => Ok((s.to_string(), e)),
            _ => Err(Error::Malformed),
        },
        Err(e) => match e.kind() {
            jsonwebtoken::errors::ErrorKind::InvalidSignature => Err(Error::InvalidSignature),
            _ => Err(Error::Malformed),
        },
    }
}

/// Produces the signed token for `claims` under `key`.
///
/// For an HMAC key this cannot fail, so the result is returned directly.
/// The final clause is the round trip: decoding the produced token under
/// the same key, at any instant at which the claims have not expired,
/// yields the claims back.
pub fn encode(claims: &Claims, key: &[u8]) -> (token: String)
    ensures
        token@ == token_of(claims.sub@, claims.exp, key@),
        raw_decode(token@, key@) == Ok::<(Seq<char>, u64), bool>((claims.sub@, claims.exp)),
        forall|now: u64|
            now <= claims.exp ==> decode_outcome(token@, key@, now) == Ok::<
                (Seq<char>, u64),
                Error,
            >((claims.sub@, claims.exp)),
{
    let token = sign_claims(claims.sub.as_str(), claims.exp, key);
    proof {
        assert forall|now: u64| now <= claims.exp implies decode_outcome(token@, key@, now) == Ok::<
            (Seq<char>, u64),
            Error,
        >((claims.sub@, claims.exp)) by {}
    }
    token
}

/// Verifies a presented token under `key` at instant `now` and returns its
/// claims.
///
/// The result is exactly [`decode_outcome`]: `InvalidSignature` when the
/// signature does not verify (whatever timestamp the token carries),
/// `Malformed` when the payload cannot be parsed into the claim shape, and
/// `Expired` only for a well-signed token whose expiry lies strictly before
/// `now`.
pub fn decode(token: &str, key: &[u8], now: u64) -> (r: Result<Claims, Error>)
    ensures
        match r {
            Ok(c) => decode_outcome(token@, key@, now) == Ok::<(Seq<char>, u64), Error>(
                (c.sub@, c.exp),
            ),
            Err(e) => decode_outcome(token@, key@, now) == Err::<(Seq<char>, u64), Error>(e),
        },
        r is Ok <==> token_live(token@, key@, now),
        raw_fails(token@, key@, true) ==> r == Err::<Claims, Error>(Error::InvalidSignature),
        (raw_decode(token@, key@) matches Ok(p) && p.1 < now) ==> r == Err::<Claims, Error>(
            Error::Expired,
        ),
{
    match verify_signed(token, key) {
        Ok((sub, exp)) => if exp >= now {
            Ok(Claims { sub, exp })
        } else {
            Err(Error::Expired)
        },
        Err(e) => Err(e),
    }
}

} // verus!
