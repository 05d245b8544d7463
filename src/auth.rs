use vstd::prelude::*;

use crate::error::AppError;
use crate::password::{argon2_accepts, password_matches, verify_password, STAND_IN_PHC};
use crate::dto::LoginUserResponse;
use crate::token::{
    can_issue_at, create_token, hs256_claims_of, now_epoch_seconds, MAX_TTL_MINUTES, issued_claims, token_outcome, verify_token_at,
    Claims, ClaimsView, JwtConfig,
};

verus! {

/// Scheme prefix of a bearer credential in the authorization header.
pub const BEARER_PREFIX: &'static str = "Bearer ";

pub const MISSING_HEADER_MESSAGE: &'static str = "Missing Authorization header";

pub const INVALID_SCHEME_MESSAGE: &'static str = "Invalid Authorization scheme";

/// The single message for every rejected token and every rejected login, so
/// that a caller cannot tell which check failed.
pub const REJECTED_CREDENTIAL_MESSAGE: &'static str = "Invalid or expired token";

/// Relies on `str::strip_prefix` with a string pattern: the rest of `s` after
/// `prefix` when `s` starts with it.
#[verifier::external_body]
fn strip_str_prefix<'a>(s: &'a str, prefix: &str) -> (r: Option<&'a str>)
    ensures
        r is Some <==> prefix@.is_prefix_of(s@),
        r matches Some(rest) ==> s@ == prefix@ + rest@,
{
    s.strip_prefix(prefix)
}

/// The principal of an authenticated request.
#[derive(Debug)]
pub struct AuthClaims(pub Claims);

/// The outcome of authenticating a request whose authorization header is
/// `header` at time `now`: the claims, or the message of the `Unauthorized`
/// failure. Every token failure collapses into one message.
pub open spec fn guard_outcome(header: Option<Seq<char>>, cfg: JwtConfig, now: int) -> Result<ClaimsView, Seq<char>> {
    match header {
        None => Err(MISSING_HEADER_MESSAGE@),
        Some(h) => if !BEARER_PREFIX@.is_prefix_of(h) {
            Err(INVALID_SCHEME_MESSAGE@)
        } else {
            match token_outcome(cfg, h.subrange(BEARER_PREFIX@.len() as int, h.len() as int), now) {
                Ok(c) => Ok(c),
                Err(_) => Err(REJECTED_CREDENTIAL_MESSAGE@),
            }
        },
    }
}

pub open spec fn opt_view(header: Option<&str>) -> Option<Seq<char>> {
    match header {
        Some(h) => Some(h@),
        None => None,
    }
}

impl AuthClaims {
    /// Authenticates a request from its authorization header, as if the clock read `now`.
    pub fn from_authorization_at(header: Option<&str>, cfg: &JwtConfig, now: i64) -> (r: Result<AuthClaims, AppError>)
        ensures
            r matches Ok(a) ==> guard_outcome(opt_view(header), *cfg, now as int) == Ok::<ClaimsView, Seq<char>>(a.0@),
            r matches Err(e) ==> e matches AppError::Unauthorized(m)
                && guard_outcome(opt_view(header), *cfg, now as int) == Err::<ClaimsView, Seq<char>>(m@),
    {
        let value = match header {
            Some(v) => v,
            None => return Err(AppError::Unauthorized(MISSING_HEADER_MESSAGE.to_owned())),
        };
        let token = match strip_str_prefix(value, BEARER_PREFIX) {
            Some(t) => t,
            None => return Err(AppError::Unauthorized(INVALID_SCHEME_MESSAGE.to_owned())),
        };
        proof {
            assert(token@ == value@.subrange(BEARER_PREFIX@.len() as int, value@.len() as int));
        }
        match verify_token_at(cfg, token, now) {
            Ok(c) => Ok(AuthClaims(c)),
            Err(_) => Err(AppError::Unauthorized(REJECTED_CREDENTIAL_MESSAGE.to_owned())),
        }
    }

    /// Authenticates a request from its authorization header at the current time.
    pub fn from_authorization(header: Option<&str>, cfg: &JwtConfig) -> (r: Result<AuthClaims, AppError>)
        ensures
            r matches Ok(a) ==> exists|now: int| #[trigger] guard_outcome(opt_view(header), *cfg, now)
                == Ok::<ClaimsView, Seq<char>>(a.0@),
            r matches Err(e) ==> e matches AppError::Unauthorized(m) && exists|now: int| #[trigger] guard_outcome(
                opt_view(header), *cfg, now) == Err::<ClaimsView, Seq<char>>(m@),
    {
        let now = now_epoch_seconds();
        AuthClaims::from_authorization_at(header, cfg, now)
    }
}

/// The outcome of a login attempt with `password` against the account found
/// for the given e-mail (its subject and stored hash), if any.
pub open spec fn login_outcome(password: Seq<char>, account: Option<(i32, Seq<char>)>) -> Result<i32, Seq<char>> {
    match account {
        Some((id, phc)) => if password_matches(password, phc) {
            Ok(id)
        } else {
            Err(REJECTED_CREDENTIAL_MESSAGE@)
        },
        None => Err(REJECTED_CREDENTIAL_MESSAGE@),
    }
}

pub open spec fn account_view(account: Option<(i32, &str)>) -> Option<(i32, Seq<char>)> {
    match account {
        Some((id, phc)) => Some((id, phc@)),
        None => None,
    }
}

/// Decides a login: the subject to issue a token for, or an `Unauthorized`
/// failure whose message does not reveal whether the account exists. An
/// unknown account still costs one derivation, against the stand-in hash, so
/// that it is not told apart by time.
pub fn authenticate_login(password: &str, account: Option<(i32, &str)>) -> (r: Result<i32, AppError>)
    ensures
        r matches Ok(id) ==> login_outcome(password@, account_view(account)) == Ok::<i32, Seq<char>>(id),
        r matches Err(e) ==> e matches AppError::Unauthorized(m)
            && login_outcome(password@, account_view(account)) == Err::<i32, Seq<char>>(m@),
{
    match account {
        Some((id, phc)) => {
            if verify_password(password, phc) {
                Ok(id)
            } else {
                Err(AppError::Unauthorized(REJECTED_CREDENTIAL_MESSAGE.to_owned()))
            }
        },
        None => {
            let _ = verify_password(password, STAND_IN_PHC);
            Err(AppError::Unauthorized(REJECTED_CREDENTIAL_MESSAGE.to_owned()))
        },
    }
}

/// Completes a login once the account for the given e-mail has been looked
/// up: rejects as [`authenticate_login`] does, else issues an access token
/// for the account's subject at the current time. A correct password always
/// gets a token when the lifetime lies in `1..=MAX_TTL_MINUTES`.
pub fn login(password: &str, account: Option<(i32, &str)>, cfg: &JwtConfig) -> (r: Result<LoginUserResponse, AppError>)
    ensures
        login_outcome(password@, account_view(account)) matches Err(m) ==> r matches Err(AppError::Unauthorized(
            m2,
        )) && m2@ == m,
        r matches Err(AppError::Unauthorized(_)) ==> login_outcome(password@, account_view(account)) is Err,
        login_outcome(password@, account_view(account)) is Ok && cfg.access_token_ttl_minutes <= 0 ==> r matches Err(
            AppError::Internal(_),
        ),
        login_outcome(password@, account_view(account)) is Ok && 0 < cfg.access_token_ttl_minutes
            <= MAX_TTL_MINUTES ==> r is Ok,
        r matches Err(e) ==> e is Unauthorized || e is Internal,
        r matches Ok(resp) ==> login_outcome(password@, account_view(account)) matches Ok(id) && exists|now: int|
            #[trigger] can_issue_at(*cfg, now) && hs256_claims_of(resp.token@, cfg.secret@) == Some(
                issued_claims(*cfg, id as int, now),
            ),
{
    let id = match authenticate_login(password, account) {
        Ok(id) => id,
        Err(e) => return Err(e),
    };
    match create_token(cfg, id) {
        Ok(token) => Ok(LoginUserResponse { token }),
        Err(e) => Err(e),
    }
}

/// A rejected login and a rejected bearer token carry the same
/// `Unauthorized` message, whichever check failed in either.
pub proof fn lemma_rejections_indistinguishable(
    password: Seq<char>,
    account: Option<(i32, Seq<char>)>,
    header: Seq<char>,
    cfg: JwtConfig,
    now: int,
)
    requires
        login_outcome(password, account) is Err,
        BEARER_PREFIX@.is_prefix_of(header),
        guard_outcome(Some(header), cfg, now) is Err,
    ensures
        login_outcome(password, account) matches Err(m1) && guard_outcome(Some(header), cfg, now) matches Err(
            m2,
        ) && m1 == m2 && m1 == REJECTED_CREDENTIAL_MESSAGE@,
{
}

/// Login after sign-up: the password that was hashed for an account logs in
/// as that account's subject; a password that Argon2 rejects against the
/// stored hash fails with the same message as a rejected bearer token.
pub proof fn lemma_login_after_signup(
    password: Seq<char>,
    wrong: Seq<char>,
    stored: Seq<char>,
    id: i32,
    header: Seq<char>,
    cfg: JwtConfig,
    now: int,
)
    requires
        password_matches(password, stored),
        !argon2_accepts(wrong, stored),
        BEARER_PREFIX@.is_prefix_of(header),
        guard_outcome(Some(header), cfg, now) is Err,
    ensures
        login_outcome(password, Some((id, stored))) == Ok::<i32, Seq<char>>(id),
        login_outcome(wrong, Some((id, stored))) matches Err(m1) && guard_outcome(Some(header), cfg, now) matches Err(
            m2,
        ) && m1 == m2,
{
}

} // verus!
