//! Who may change the tasks: the credential check at login and the guard before a mutation.

use vstd::prelude::*;
use crate::model::{admins_view, AdminUser, AdminUserView, ApiError, AppState, LoginRequest};
use crate::token::{issue, issue_outcome, same_token, signed_token, token_claims, verify, verify_outcome, TOKEN_LIFETIME};

verus! {

/// Some administrator has exactly this username and this password.
pub open spec fn credential_known(admins: Seq<AdminUserView>, username: Seq<char>, password: Seq<char>) -> bool {
    exists|i: int|
        0 <= i < admins.len() && (#[trigger] admins[i]).username == username && admins[i].password == password
}

/// `i` is the place of the first administrator with exactly this username and password.
pub open spec fn is_first_credential(
    admins: Seq<AdminUserView>,
    username: Seq<char>,
    password: Seq<char>,
    i: int,
) -> bool {
    &&& 0 <= i < admins.len()
    &&& admins[i].username == username
    &&& admins[i].password == password
    &&& forall|j: int| 0 <= j < i ==> !((#[trigger] admins[j]).username == username && admins[j].password == password)
}

/// Some administrator has exactly this username.
pub open spec fn admin_known(admins: Seq<AdminUserView>, username: Seq<char>) -> bool {
    exists|i: int| 0 <= i < admins.len() && (#[trigger] admins[i]).username == username
}

/// `text` without the `prefix` it starts with, or `None` where it does not start with it.
pub open spec fn without_prefix(text: Seq<char>, prefix: Seq<char>) -> Option<Seq<char>> {
    if prefix.is_prefix_of(text) {
        Some(text.skip(prefix.len() as int))
    } else {
        None
    }
}

/// The token in an `Authorization` header: what follows `Bearer `.
pub open spec fn bearer_token(header: Option<Seq<char>>) -> Option<Seq<char>> {
    match header {
        Some(h) => without_prefix(h, "Bearer "@),
        None => None,
    }
}

/// The text of a header that may be absent.
pub open spec fn header_view(header: Option<&str>) -> Option<Seq<char>> {
    match header {
        Some(h) => Some(h@),
        None => None,
    }
}

/// What a login is answered with at the second `now`: `Unauthenticated` unless the pair is
/// an administrator's; else a token for the username that ends 24 hours later, or
/// `InternalError` where that end is past the last second there is.
pub open spec fn login_outcome(
    admins: Seq<AdminUserView>,
    secret: Seq<char>,
    username: Seq<char>,
    password: Seq<char>,
    now: int,
) -> Result<Seq<char>, ApiError> {
    if !credential_known(admins, username, password) {
        Err(ApiError::Unauthenticated)
    } else if now + TOKEN_LIFETIME > i64::MAX {
        Err(ApiError::InternalError)
    } else {
        issue_outcome(signed_token(username, now + TOKEN_LIFETIME, secret))
    }
}

/// What the guard decides on decoded claims: claims that do not stand at `now` are
/// `Unauthenticated`; a subject that is no administrator is `Forbidden`.
pub open spec fn claims_verdict(
    admins: Seq<AdminUserView>,
    decoded: Option<(Option<Seq<char>>, Option<int>)>,
    now: int,
) -> Result<(), ApiError> {
    match verify_outcome(decoded, now) {
        Ok(claims) => if admin_known(admins, claims.sub) {
            Ok(())
        } else {
            Err(ApiError::Forbidden)
        },
        Err(_) => Err(ApiError::Unauthenticated),
    }
}

/// What the guard decides on a request at the second `now`.
pub open spec fn guard_outcome(
    admins: Seq<AdminUserView>,
    secret: Seq<char>,
    header: Option<Seq<char>>,
    now: int,
) -> Result<(), ApiError> {
    match bearer_token(header) {
        Some(token) => claims_verdict(admins, token_claims(token, secret), now),
        None => Err(ApiError::Unauthenticated),
    }
}

/// The header carries a token that was signed under `secret` for an administrator and
/// for an end that is later than `now`.
pub open spec fn issued_for_admin(
    admins: Seq<AdminUserView>,
    secret: Seq<char>,
    header: Option<Seq<char>>,
    now: int,
) -> bool {
    exists|sub: Seq<char>, exp: int|
        0 <= exp <= i64::MAX && now < exp && admin_known(admins, sub) && bearer_token(header) == #[trigger] signed_token(
            sub,
            exp,
            secret,
        ) && bearer_token(header) is Some
}

/// The rest of `text` behind `prefix`, or `None` where `text` does not start with it.
pub fn strip_prefix<'a>(text: &'a str, prefix: &str) -> (r: Option<&'a str>)
    ensures
        match without_prefix(text@, prefix@) {
            Some(rest) => r matches Some(s) && s@ == rest,
            None => r is None,
        },
{
    let n: usize = prefix.unicode_len();
    let m: usize = text.unicode_len();
    if n > m {
        return None;
    }
    let mut i: usize = 0;
    while i < n
        invariant
            i <= n <= m,
            n == prefix@.len(),
            m == text@.len(),
            forall|j: int| 0 <= j < i ==> text@[j] == prefix@[j],
        decreases n - i,
    {
        if text.get_char(i) != prefix.get_char(i) {
            assert(text@.subrange(0, n as int)[i as int] != prefix@[i as int]);
            return None;
        }
        i += 1;
    }
    assert(prefix@ =~= text@.subrange(0, n as int));
    let rest = text.substring_char(n, m);
    assert(rest@ =~= text@.skip(n as int));
    Some(rest)
}

/// Calls `chrono::Utc::now` and gives the second it is. Nothing is known of the answer.
#[verifier::external_body]
fn current_timestamp() -> i64 {
    chrono::Utc::now().timestamp()
}

/// The first administrator with exactly this username and password, compared case by case.
pub fn find_admin<'a>(admins: &'a Vec<AdminUser>, username: &String, password: &String) -> (r: Option<&'a AdminUser>)
    ensures
        r is Some <==> credential_known(admins_view(admins@), username@, password@),
        r matches Some(a) ==> a@ == (AdminUserView { username: username@, password: password@ }) && exists|i: int|
            is_first_credential(admins_view(admins@), username@, password@, i) && *a == #[trigger] admins[i],
{
    let ghost v = admins_view(admins@);
    let mut i: usize = 0;
    while i < admins.len()
        invariant
            i <= admins.len(),
            v == admins_view(admins@),
            forall|j: int| 0 <= j < i ==> !((#[trigger] v[j]).username == username@ && v[j].password == password@),
        decreases admins.len() - i,
    {
        assert(v[i as int] == admins@[i as int]@);
        if admins[i].username == *username && admins[i].password == *password {
            assert(is_first_credential(v, username@, password@, i as int));
            return Some(&admins[i]);
        }
        i += 1;
    }
    None
}

/// Whether some administrator has exactly this username.
pub fn is_admin(admins: &Vec<AdminUser>, username: &String) -> (r: bool)
    ensures
        r == admin_known(admins_view(admins@), username@),
{
    let ghost v = admins_view(admins@);
    let mut i: usize = 0;
    while i < admins.len()
        invariant
            i <= admins.len(),
            v == admins_view(admins@),
            forall|j: int| 0 <= j < i ==> (#[trigger] v[j]).username != username@,
        decreases admins.len() - i,
    {
        assert(v[i as int] == admins@[i as int]@);
        if admins[i].username == *username {
            return true;
        }
        i += 1;
    }
    false
}

/// Answers a login at the second `now`: `Unauthenticated` for a pair that is no
/// administrator's; for an administrator's a token that ends 24 hours later, or
/// `InternalError` where no second is 24 hours later or the signer fails.
pub fn login_at(state: &AppState, request: &LoginRequest, now: i64) -> (r: Result<String, ApiError>)
    ensures
        same_token(
            r,
            login_outcome(state@.admins, state@.jwt_secret, request@.username, request@.password, now as int),
        ),
{
    match find_admin(&state.admins, &request.username, &request.password) {
        Some(admin) => {
            if now > i64::MAX - TOKEN_LIFETIME {
                Err(ApiError::InternalError)
            } else {
                issue(state.jwt_secret.as_str(), admin.username.as_str(), now)
            }
        },
        None => Err(ApiError::Unauthenticated),
    }
}

/// Answers a login at the second that the clock shows: the answer of `login_at` at some
/// second. So whatever the clock shows, a pair that is no administrator's gets
/// `Unauthenticated`.
pub fn login(state: &AppState, request: &LoginRequest) -> (r: Result<String, ApiError>)
    ensures
        !credential_known(state@.admins, request@.username, request@.password) ==> r == Err::<String, ApiError>(
            ApiError::Unauthenticated,
        ),
        exists|now: i64|
            same_token(
                r,
                #[trigger] login_outcome(
                    state@.admins,
                    state@.jwt_secret,
                    request@.username,
                    request@.password,
                    now as int,
                ),
            ),
{
    let now: i64 = current_timestamp();
    login_at(state, request, now)
}

/// Decides at the second `now` whether a request with this `Authorization` header may
/// change the tasks. A header that is absent or not `Bearer ` and a token, and a token
/// that does not verify or has ended, give `Unauthenticated`; a subject that is no
/// administrator gives `Forbidden`. A bearer token that was signed under this key, for an
/// end that is not negative, is judged by the claims it was signed for: let through for an
/// administrator while its end is after `now`, `Unauthenticated` from its end on.
pub fn authorize(state: &AppState, header: Option<&str>, now: i64) -> (r: Result<(), ApiError>)
    ensures
        r == guard_outcome(state@.admins, state@.jwt_secret, header_view(header), now as int),
        forall|sub: Seq<char>, exp: int|
            0 <= exp <= i64::MAX && bearer_token(header_view(header)) is Some && bearer_token(header_view(header))
                == #[trigger] signed_token(sub, exp, state@.jwt_secret) ==> r == claims_verdict(
                state@.admins,
                Some((Some(sub), Some(exp))),
                now as int,
            ),
        issued_for_admin(state@.admins, state@.jwt_secret, header_view(header), now as int) ==> r == Ok::<(), ApiError>(()),
{
    let value = match header {
        Some(h) => h,
        None => { return Err(ApiError::Unauthenticated); },
    };
    let token = match strip_prefix(value, "Bearer ") {
        Some(t) => t,
        None => { return Err(ApiError::Unauthenticated); },
    };
    match verify(state.jwt_secret.as_str(), token, now) {
        Ok(claims) => {
            if is_admin(&state.admins, &claims.sub) {
                Ok(())
            } else {
                Err(ApiError::Forbidden)
            }
        },
        Err(_) => Err(ApiError::Unauthenticated),
    }
}

/// The guard at the second that the clock shows: its answer is the guard's at some second.
pub fn auth_middleware(state: &AppState, header: Option<&str>) -> (r: Result<(), ApiError>)
    ensures
        exists|now: i64| r == #[trigger] guard_outcome(state@.admins, state@.jwt_secret, header_view(header), now as int),
{
    let now: i64 = current_timestamp();
    authorize(state, header, now)
}

/// A header made of `Bearer ` and a token carries that token.
pub proof fn lemma_bearer_header(token: Seq<char>)
    ensures
        bearer_token(Some("Bearer "@ + token)) == Some(token),
{
    let prefix = "Bearer "@;
    assert((prefix + token).skip(prefix.len() as int) =~= token);
    assert((prefix + token).subrange(0, prefix.len() as int) =~= prefix);
}

/// A login that succeeds at the second `now` returns a token which, presented as a
/// bearer token at any second `later` before its end, is one that the guard lets
/// through: one signed under the key for an administrator and for an end after `later`.
/// The end must not be negative, that is `now` not more than 24 hours before the epoch.
pub proof fn law_login_token_passes_guard(
    admins: Seq<AdminUserView>,
    secret: Seq<char>,
    username: Seq<char>,
    password: Seq<char>,
    now: int,
    later: int,
    token: Seq<char>,
)
    requires
        login_outcome(admins, secret, username, password, now) == Ok::<Seq<char>, ApiError>(token),
        0 <= now + TOKEN_LIFETIME,
        later < now + TOKEN_LIFETIME,
    ensures
        credential_known(admins, username, password),
        issued_for_admin(admins, secret, Some("Bearer "@ + token), later),
{
    lemma_bearer_header(token);
    let i = choose|i: int|
        0 <= i < admins.len() && (#[trigger] admins[i]).username == username && admins[i].password == password;
    assert(admins[i].username == username);
    assert(admin_known(admins, username));
    assert(signed_token(username, now + TOKEN_LIFETIME, secret) == Some(token));
}

/// The claims that a successful login at the second `now` signed are judged by the guard
/// like this at the second `later`: let through before the token's end, so 23 hours and
/// 59 minutes after the login, and `Unauthenticated` from its end on, so one second
/// after 24 hours.
pub proof fn law_login_claims_verdict(
    admins: Seq<AdminUserView>,
    secret: Seq<char>,
    username: Seq<char>,
    password: Seq<char>,
    now: int,
    later: int,
    token: Seq<char>,
)
    requires
        login_outcome(admins, secret, username, password, now) == Ok::<Seq<char>, ApiError>(token),
    ensures
        signed_token(username, now + TOKEN_LIFETIME, secret) == Some(token),
        claims_verdict(admins, Some((Some(username), Some(now + TOKEN_LIFETIME))), later) == (if later < now + 24 * 3600 {
            Ok::<(), ApiError>(())
        } else {
            Err::<(), ApiError>(ApiError::Unauthenticated)
        }),
{
    let i = choose|i: int|
        0 <= i < admins.len() && (#[trigger] admins[i]).username == username && admins[i].password == password;
    assert(admins[i].username == username);
    assert(admin_known(admins, username));
}

/// A bearer token that does not verify under the key (it was signed under another, or
/// was changed after signing, or is no token at all) is turned down as `Unauthenticated`
/// at every second, whoever the administrators are.
pub proof fn law_unverified_token_is_unauthenticated(
    admins: Seq<AdminUserView>,
    secret: Seq<char>,
    token: Seq<char>,
    now: int,
)
    requires
        token_claims(token, secret) is None,
    ensures
        guard_outcome(admins, secret, Some("Bearer "@ + token), now) == Err::<(), ApiError>(ApiError::Unauthenticated),
{
    lemma_bearer_header(token);
}

/// A request without an `Authorization` header is turned down as `Unauthenticated`.
pub proof fn law_missing_header_is_unauthenticated(admins: Seq<AdminUserView>, secret: Seq<char>, now: int)
    ensures
        guard_outcome(admins, secret, None, now) == Err::<(), ApiError>(ApiError::Unauthenticated),
{
}

} // verus!
