use vstd::prelude::*;

use crate::error::AppError;

verus! {

/// The identity carried inside a token.
#[derive(Debug)]
pub struct Claims {
    pub sub: i32,
    pub exp: i64,
    pub iat: i64,
    pub iss: String,
    pub aud: Option<String>,
}

/// Mathematical model of [`Claims`].
pub struct ClaimsView {
    pub sub: int,
    pub exp: int,
    pub iat: int,
    pub iss: Seq<char>,
    pub aud: Option<Seq<char>>,
}

pub open spec fn opt_str_view(o: Option<String>) -> Option<Seq<char>> {
    match o {
        Some(s) => Some(s@),
        None => None,
    }
}

impl View for Claims {
    type V = ClaimsView;

    open spec fn view(&self) -> ClaimsView {
        ClaimsView {
            sub: self.sub as int,
            exp: self.exp as int,
            iat: self.iat as int,
            iss: self.iss@,
            aud: opt_str_view(self.aud),
        }
    }
}

/// The error type of `jsonwebtoken`, carried through opaquely.
#[verifier::external_type_specification]
#[verifier::external_body]
pub struct ExJwtError(jsonwebtoken::errors::Error);

/// The token produced by signing `claims` with HS256 under `secret`.
pub uninterp spec fn hs256_token_of(claims: ClaimsView, secret: Seq<char>) -> Seq<char>;

/// The claims that `token` carries when it is an HS256 token whose signature
/// checks out under `secret`; `None` when its structure, algorithm, signature
/// or claim payload is not accepted.
pub uninterp spec fn hs256_claims_of(token: Seq<char>, secret: Seq<char>) -> Option<ClaimsView>;

/// Relies on `jsonwebtoken::encode` with `Header::new(Algorithm::HS256)` and
/// `EncodingKey::from_secret`: the token is a function of the claims and the
/// secret, and `jsonwebtoken::decode` under the same secret gives the same
/// claims back. With an HMAC key and a string-keyed JSON object neither the
/// serialisation nor the signing step returns an error.
#[verifier::external_body]
fn encode_hs256(claims: &Claims, secret: &str) -> (r: Result<String, jsonwebtoken::errors::Error>)
    ensures
        r is Ok,
        r matches Ok(t) ==> t@ == hs256_token_of(claims@, secret@),
        r matches Ok(t) ==> hs256_claims_of(t@, secret@) == Some(claims@),
{
    let payload: serde_json::Map<String, serde_json::Value> = [
        ("sub", serde_json::Value::from(claims.sub)),
        ("exp", serde_json::Value::from(claims.exp)),
        ("iat", serde_json::Value::from(claims.iat)),
        ("iss", serde_json::Value::from(claims.iss.clone())),
        ("aud", serde_json::Value::from(claims.aud.clone())),
    ].into_iter().map(|(k, v)| (k.to_string(), v)).collect();
    let header = jsonwebtoken::Header::new(jsonwebtoken::Algorithm::HS256);
    jsonwebtoken::encode(&header, &payload, &jsonwebtoken::EncodingKey::from_secret(secret.as_bytes()))
}

/// Relies on `jsonwebtoken::decode` with only `Algorithm::HS256` accepted and
/// the signature checked under `DecodingKey::from_secret`; no time, issuer or
/// audience rule is applied there. The claim object is then read as the five
/// typed claim fields by `serde_json::from_value`.
#[verifier::external_body]
fn decode_hs256(token: &str, secret: &str) -> (r: Option<Claims>)
    ensures
        r is None <==> hs256_claims_of(token@, secret@) is None,
        r matches Some(c) ==> hs256_claims_of(token@, secret@) == Some(c@),
{
    let mut rules = jsonwebtoken::Validation::new(jsonwebtoken::Algorithm::HS256);
    rules.validate_exp = false;
    rules.validate_aud = false;
    rules.required_spec_claims.clear();
    let key = jsonwebtoken::DecodingKey::from_secret(secret.as_bytes());
    let mut m = jsonwebtoken::decode::<serde_json::Map<String, serde_json::Value>>(token, &key, &rules).ok()?.claims;
    let row = ["sub", "exp", "iat", "iss", "aud"].map(|k| m.remove(k).unwrap_or_default());
    let (sub, exp, iat, iss, aud) = serde_json::from_value(serde_json::Value::from(row.to_vec())).ok()?;
    Some(Claims { sub, exp, iat, iss, aud })
}

/// Bound on the magnitude of any timestamp `chrono` produces: its day count
/// is an `i32`, so seconds stay below 2^48 either side of the epoch.
pub const CLOCK_BOUND: i64 = 281_474_976_710_656;

/// Largest lifetime, in minutes, for which a token can be issued at any time
/// the clock can read.
pub const MAX_TTL_MINUTES: i64 = 153_701_509_364_634_419;

/// Relies on `chrono::Utc::now` and `DateTime::timestamp`: the current time
/// in whole seconds since the Unix epoch, computed from an `i32` day count
/// and the seconds since midnight. Nothing else is promised of its value.
#[verifier::external_body]
pub(crate) fn now_epoch_seconds() -> (r: i64)
    ensures
        -CLOCK_BOUND < r < CLOCK_BOUND,
{
    chrono::Utc::now().timestamp()
}

/// Issuer that [`JwtConfig::new`] configures.
pub const DEFAULT_ISSUER: &'static str = "my_app";

/// Access-token lifetime, in minutes, that [`JwtConfig::new`] configures.
pub const DEFAULT_TTL_MINUTES: i64 = 60;

/// Signing configuration: the shared secret, the issuer written into and
/// required of every token, and the access-token lifetime in minutes.
#[derive(Clone)]
pub struct JwtConfig {
    pub secret: String,
    pub issuer: String,
    pub access_token_ttl_minutes: i64,
}

impl JwtConfig {
    /// A configuration with the given secret and the fixed issuer and lifetime.
    pub fn new(secret: String) -> (r: JwtConfig)
        ensures
            r.secret@ == secret@,
            r.issuer@ == DEFAULT_ISSUER@,
            r.access_token_ttl_minutes == DEFAULT_TTL_MINUTES,
    {
        JwtConfig {
            secret,
            issuer: DEFAULT_ISSUER.to_owned(),
            access_token_ttl_minutes: DEFAULT_TTL_MINUTES,
        }
    }
}

/// Why a token was not accepted.
#[derive(Debug, Clone, Copy, PartialEq, Eq, Structural)]
pub enum TokenError {
    /// Malformed structure, a foreign algorithm, or a signature that does not
    /// match the configured secret.
    Tampered,
    /// The expiry lies before the time of verification.
    Expired,
    /// The issuer is not the configured one.
    IssuerMismatch,
}

/// Expiry of a token issued at `now` under `cfg`.
pub open spec fn expiry_at(cfg: JwtConfig, now: int) -> int {
    now + cfg.access_token_ttl_minutes * 60
}

/// A token can be issued at `now`: the lifetime is positive and the expiry
/// fits in a 64-bit timestamp.
pub open spec fn can_issue_at(cfg: JwtConfig, now: int) -> bool {
    &&& cfg.access_token_ttl_minutes > 0
    &&& expiry_at(cfg, now) <= i64::MAX
}

/// The claims issued for `subject` at `now`.
pub open spec fn issued_claims(cfg: JwtConfig, subject: int, now: int) -> ClaimsView {
    ClaimsView {
        sub: subject,
        iat: now,
        exp: expiry_at(cfg, now),
        iss: cfg.issuer@,
        aud: None,
    }
}

/// The outcome of verifying `token` under `cfg` at time `now`: signature and
/// structure first, then expiry (no leeway), then the issuer.
pub open spec fn token_outcome(cfg: JwtConfig, token: Seq<char>, now: int) -> Result<ClaimsView, TokenError> {
    match hs256_claims_of(token, cfg.secret@) {
        None => Err(TokenError::Tampered),
        Some(c) => if c.exp < now {
            Err(TokenError::Expired)
        } else if c.iss != cfg.issuer@ {
            Err(TokenError::IssuerMismatch)
        } else {
            Ok(c)
        },
    }
}

/// Signs `claims` under the secret of `cfg`.
pub fn sign_claims(cfg: &JwtConfig, claims: &Claims) -> (r: String)
    ensures
        r@ == hs256_token_of(claims@, cfg.secret@),
        hs256_claims_of(r@, cfg.secret@) == Some(claims@),
{
    match encode_hs256(claims, cfg.secret.as_str()) {
        Ok(t) => t,
        Err(_) => String::new(),
    }
}

/// Issues a token for `subject` as if the clock read `now`.
pub fn issue_token_at(cfg: &JwtConfig, subject: i32, now: i64) -> (r: Result<String, AppError>)
    ensures
        r is Ok <==> can_issue_at(*cfg, now as int),
        r matches Ok(t) ==> t@ == hs256_token_of(issued_claims(*cfg, subject as int, now as int), cfg.secret@),
        r matches Ok(t) ==> hs256_claims_of(t@, cfg.secret@) == Some(issued_claims(*cfg, subject as int, now as int)),
        r matches Err(e) ==> e is Internal,
{
    let ttl = cfg.access_token_ttl_minutes;
    if ttl <= 0 {
        return Err(AppError::internal("access-token lifetime must be positive".to_owned()));
    }
    let exp_wide: i128 = now as i128 + ttl as i128 * 60;
    if exp_wide > i64::MAX as i128 {
        return Err(AppError::internal("token expiry out of range".to_owned()));
    }
    let claims = Claims {
        sub: subject,
        exp: exp_wide as i64,
        iat: now,
        iss: cfg.issuer.clone(),
        aud: None,
    };
    Ok(sign_claims(cfg, &claims))
}

/// Issues a token for `subject` at the current time.
pub fn create_token(cfg: &JwtConfig, subject: i32) -> (r: Result<String, AppError>)
    ensures
        r matches Ok(t) ==> exists|now: int| #[trigger] can_issue_at(*cfg, now)
            && hs256_claims_of(t@, cfg.secret@) == Some(issued_claims(*cfg, subject as int, now)),
        cfg.access_token_ttl_minutes <= 0 ==> r is Err,
        0 < cfg.access_token_ttl_minutes <= MAX_TTL_MINUTES ==> r is Ok,
        r matches Err(e) ==> e is Internal,
{
    let now = now_epoch_seconds();
    issue_token_at(cfg, subject, now)
}

/// Verifies `token` under `cfg` as if the clock read `now`.
pub fn verify_token_at(cfg: &JwtConfig, token: &str, now: i64) -> (r: Result<Claims, TokenError>)
    ensures
        r matches Ok(c) ==> token_outcome(*cfg, token@, now as int) == Ok::<ClaimsView, TokenError>(c@),
        r matches Err(e) ==> token_outcome(*cfg, token@, now as int) == Err::<ClaimsView, TokenError>(e),
{
    match decode_hs256(token, cfg.secret.as_str()) {
        None => Err(TokenError::Tampered),
        Some(c) => {
            if c.exp < now {
                Err(TokenError::Expired)
            } else if c.iss != cfg.issuer {
                Err(TokenError::IssuerMismatch)
            } else {
                Ok(c)
            }
        },
    }
}

/// Verifies `token` under `cfg` at the current time.
pub fn verify_token(cfg: &JwtConfig, token: &str) -> (r: Result<Claims, TokenError>)
    ensures
        r matches Ok(c) ==> exists|now: int| #[trigger] token_outcome(*cfg, token@, now) == Ok::<ClaimsView, TokenError>(c@),
        r matches Err(e) ==> exists|now: int| #[trigger] token_outcome(*cfg, token@, now) == Err::<ClaimsView, TokenError>(e),
{
    let now = now_epoch_seconds();
    verify_token_at(cfg, token, now)
}

/// A token that carries the claims issued for `subject` at `issued_at` is
/// accepted at every time up to its expiry, and gives back exactly those
/// claims: the subject, issuer, issue time and expiry are preserved.
pub proof fn lemma_issued_token_verifies(cfg: JwtConfig, subject: int, issued_at: int, token: Seq<char>, now: int)
    requires
        hs256_claims_of(token, cfg.secret@) == Some(issued_claims(cfg, subject, issued_at)),
        now <= expiry_at(cfg, issued_at),
    ensures
        token_outcome(cfg, token, now) == Ok::<ClaimsView, TokenError>(issued_claims(cfg, subject, issued_at)),
        token_outcome(cfg, token, now) matches Ok(c) && c.sub == subject && c.iss == cfg.issuer@
            && c.iat == issued_at && c.exp == expiry_at(cfg, issued_at),
{
}

/// A token whose expiry lies before the time of verification is rejected as
/// expired, even when its signature is valid.
pub proof fn lemma_expired_token_rejected(cfg: JwtConfig, token: Seq<char>, now: int)
    requires
        hs256_claims_of(token, cfg.secret@) matches Some(c) && c.exp < now,
    ensures
        token_outcome(cfg, token, now) == Err::<ClaimsView, TokenError>(TokenError::Expired),
{
}

/// A token whose issuer differs from the configured one is never accepted;
/// while it has not expired it is rejected as an issuer mismatch.
pub proof fn lemma_foreign_issuer_rejected(cfg: JwtConfig, token: Seq<char>, now: int)
    requires
        hs256_claims_of(token, cfg.secret@) matches Some(c) && c.iss != cfg.issuer@,
    ensures
        token_outcome(cfg, token, now) is Err,
        hs256_claims_of(token, cfg.secret@) matches Some(c) && now <= c.exp
            ==> token_outcome(cfg, token, now) == Err::<ClaimsView, TokenError>(TokenError::IssuerMismatch),
{
}

/// Every accepted token carries the configured issuer and an expiry no
/// earlier than the time of verification.
pub proof fn lemma_accepted_token_is_current(cfg: JwtConfig, token: Seq<char>, now: int)
    requires
        token_outcome(cfg, token, now) is Ok,
    ensures
        token_outcome(cfg, token, now) matches Ok(c) && c.iss == cfg.issuer@ && now <= c.exp
            && hs256_claims_of(token, cfg.secret@) == Some(c),
{
}

} // verus!
