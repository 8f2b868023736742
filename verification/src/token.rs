//! Session tokens: who may sign them, what they hold, and when they end.
//!
//! Signing and checking a signature is the work of the `jsonwebtoken` crate. What it
//! returns is given a name here and believed; what the library does with it is proved.

use vstd::prelude::*;
use crate::model::{ApiError, AuthError, Claims, ClaimsView};

verus! {

/// How long a token lasts, in seconds: 24 hours.
pub const TOKEN_LIFETIME: i64 = 86400;

/// The error type of `jsonwebtoken`, carried through and never looked into.
#[verifier::external_type_specification]
#[verifier::external_body]
pub struct ExTokenError(jsonwebtoken::errors::Error);

/// The token that `jsonwebtoken::encode` gives for the claims `sub` and `exp` under the
/// HMAC-SHA256 key `secret` with the default header, or `None` where it reports an error.
pub uninterp spec fn signed_token(sub: Seq<char>, exp: int, secret: Seq<char>) -> Option<Seq<char>>;

/// The `sub` and `exp` claims that `jsonwebtoken::decode` reads from `token` under the
/// HMAC-SHA256 key `secret` without looking at the clock, each `None` where the claim is
/// absent or of another type; `None` as a whole where `decode` reports an error.
pub uninterp spec fn token_claims(token: Seq<char>, secret: Seq<char>) -> Option<(Option<Seq<char>>, Option<int>)>;

/// The view of a pair of claims as the decoder hands them out.
pub open spec fn claims_view(c: (Option<String>, Option<i64>)) -> (Option<Seq<char>>, Option<int>) {
    (
        match c.0 {
            Some(s) => Some(s@),
            None => None,
        },
        match c.1 {
            Some(e) => Some(e as int),
            None => None,
        },
    )
}

/// The view of what came back from the decoder, an error counting as `None`.
pub open spec fn decoded_view(d: Option<(Option<String>, Option<i64>)>) -> Option<(Option<Seq<char>>, Option<int>)> {
    match d {
        Some(c) => Some(claims_view(c)),
        None => None,
    }
}

/// A token that the signer made under `secret`, for an end that is not negative, is read
/// back as `r`: accepted, with the claims it was made from.
pub open spec fn reads_back(
    r: Option<(Option<Seq<char>>, Option<int>)>,
    token: Seq<char>,
    secret: Seq<char>,
) -> bool {
    forall|sub: Seq<char>, exp: int|
        0 <= exp <= i64::MAX && #[trigger] signed_token(sub, exp, secret) == Some(token)
            ==> r == Some((Some(sub), Some(exp)))
}

/// Calls `jsonwebtoken::encode` with the default header (HS256), the claims `sub` and
/// `exp`, and `secret` as the key. Believed: the answer depends on these three alone, so
/// it is `signed_token` of them.
#[verifier::external_body]
fn sign_claims(sub: &str, exp: i64, secret: &str) -> (r: Result<String, jsonwebtoken::errors::Error>)
    ensures
        match r {
            Ok(t) => signed_token(sub@, exp as int, secret@) == Some(t@),
            Err(_) => signed_token(sub@, exp as int, secret@) is None,
        },
{
    let mut claims = serde_json::Map::new();
    claims.insert("sub".to_string(), serde_json::Value::from(sub));
    claims.insert("exp".to_string(), serde_json::Value::from(exp));
    let key = jsonwebtoken::EncodingKey::from_secret(secret.as_bytes());
    jsonwebtoken::encode(&jsonwebtoken::Header::default(), &claims, &key)
}

/// Calls `jsonwebtoken::decode` for HS256 with `secret` as the key and with its own check
/// of the expiry switched off, and hands out the claims `sub` (if a string) and `exp` (if
/// an integer that fits). Believed: the answer depends on `token` and `secret` alone, so it
/// is `token_claims` of them; and a token from `jsonwebtoken::encode` under the same key,
/// with an `exp` that is not negative, is accepted and gives back its claims.
#[verifier::external_body]
fn read_claims(token: &str, secret: &str) -> (r: Result<(Option<String>, Option<i64>), jsonwebtoken::errors::Error>)
    ensures
        match r {
            Ok(c) => token_claims(token@, secret@) == Some(claims_view(c)),
            Err(_) => token_claims(token@, secret@) is None,
        },
        reads_back(
            match r {
                Ok(c) => Some(claims_view(c)),
                Err(_) => None,
            },
            token@,
            secret@,
        ),
{
    let mut validation = jsonwebtoken::Validation::default();
    validation.validate_exp = false;
    let key = jsonwebtoken::DecodingKey::from_secret(secret.as_bytes());
    match jsonwebtoken::decode::<serde_json::Value>(token, &key, &validation) {
        Ok(data) => Ok((
            data.claims.get("sub").and_then(serde_json::Value::as_str).map(str::to_string),
            data.claims.get("exp").and_then(serde_json::Value::as_i64),
        )),
        Err(e) => Err(e),
    }
}

/// What becomes of a signer's answer: the token, or `InternalError`.
pub open spec fn issue_outcome(signed: Option<Seq<char>>) -> Result<Seq<char>, ApiError> {
    match signed {
        Some(t) => Ok(t),
        None => Err(ApiError::InternalError),
    }
}

/// What a decoder's answer is worth at the second `now`: claims that are both there and
/// end after `now` stand; an end that has come is `Expired`; all else is `InvalidSignature`.
pub open spec fn verify_outcome(
    decoded: Option<(Option<Seq<char>>, Option<int>)>,
    now: int,
) -> Result<ClaimsView, AuthError> {
    match decoded {
        Some((Some(sub), Some(exp))) => if exp > now {
            Ok(ClaimsView { sub, exp })
        } else {
            Err(AuthError::Expired)
        },
        _ => Err(AuthError::InvalidSignature),
    }
}

/// `r` is `expected`, claims compared by their content.
pub open spec fn same_verdict(r: Result<Claims, AuthError>, expected: Result<ClaimsView, AuthError>) -> bool {
    match expected {
        Ok(claims) => r matches Ok(c) && c@ == claims,
        Err(e) => r == Err::<Claims, AuthError>(e),
    }
}

/// `r` is `expected`, tokens compared by their text.
pub open spec fn same_token(r: Result<String, ApiError>, expected: Result<Seq<char>, ApiError>) -> bool {
    match expected {
        Ok(t) => r matches Ok(s) && s@ == t,
        Err(e) => r == Err::<String, ApiError>(e),
    }
}

/// Turns the signer's answer into the library's: the token, or `InternalError`.
pub fn issued(signed: Result<String, jsonwebtoken::errors::Error>) -> (r: Result<String, ApiError>)
    ensures
        match signed {
            Ok(t) => r == Ok::<String, ApiError>(t),
            Err(_) => r == Err::<String, ApiError>(ApiError::InternalError),
        },
{
    match signed {
        Ok(t) => Ok(t),
        Err(_) => Err(ApiError::InternalError),
    }
}

/// Signs a token for `username` that ends 24 hours after `now`.
pub fn issue(secret: &str, username: &str, now: i64) -> (r: Result<String, ApiError>)
    requires
        now + TOKEN_LIFETIME <= i64::MAX,
    ensures
        same_token(r, issue_outcome(signed_token(username@, now + TOKEN_LIFETIME, secret@))),
{
    issued(sign_claims(username, now + TOKEN_LIFETIME, secret))
}

/// Judges decoded claims at the second `now`: they stand if both are there and the end
/// is later than `now`.
pub fn check_claims(decoded: Option<(Option<String>, Option<i64>)>, now: i64) -> (r: Result<Claims, AuthError>)
    ensures
        same_verdict(r, verify_outcome(decoded_view(decoded), now as int)),
{
    match decoded {
        Some((Some(sub), Some(exp))) => {
            if exp > now {
                Ok(Claims { sub, exp })
            } else {
                Err(AuthError::Expired)
            }
        },
        _ => Err(AuthError::InvalidSignature),
    }
}

/// Checks `token` against `secret` and the second `now`. A token that `issue` made under
/// the same key, for an end that is not negative, is read back with the claims it was made
/// from: it stands while its end is after `now`, and is `Expired` from its end on.
pub fn verify(secret: &str, token: &str, now: i64) -> (r: Result<Claims, AuthError>)
    ensures
        same_verdict(r, verify_outcome(token_claims(token@, secret@), now as int)),
        forall|sub: Seq<char>, exp: int|
            0 <= exp <= i64::MAX && #[trigger] signed_token(sub, exp, secret@) == Some(token@) ==> token_claims(
                token@,
                secret@,
            ) == Some((Some(sub), Some(exp))) && same_verdict(
                r,
                verify_outcome(Some((Some(sub), Some(exp))), now as int),
            ),
{
    let decoded = match read_claims(token, secret) {
        Ok(c) => Some(c),
        Err(_) => None,
    };
    check_claims(decoded, now)
}

/// A token made at the second `made` stands at every second before `made` plus 24 hours,
/// so at 23 hours and 59 minutes, and is expired from that second on, so one second
/// after 24 hours.
pub proof fn law_token_window(sub: Seq<char>, made: int, now: int)
    ensures
        verify_outcome(Some((Some(sub), Some(made + TOKEN_LIFETIME))), now) == (if now < made + 24 * 60 * 60 {
            Ok::<ClaimsView, AuthError>(ClaimsView { sub, exp: made + TOKEN_LIFETIME })
        } else {
            Err::<ClaimsView, AuthError>(AuthError::Expired)
        }),
        verify_outcome(Some((Some(sub), Some(made + TOKEN_LIFETIME))), made + 23 * 3600 + 59 * 60) is Ok,
        verify_outcome(Some((Some(sub), Some(made + TOKEN_LIFETIME))), made + 24 * 3600 + 1) == Err::<
            ClaimsView,
            AuthError,
        >(AuthError::Expired),
{
}

} // verus!
