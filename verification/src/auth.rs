//! The session-token subsystem.
//!
//! Tokens are signed claims: the subject address and an expiry timestamp,
//! encoded and signed with a process-wide symmetric secret by the
//! `jsonwebtoken` crate.  The encoding for given claims and secret is named
//! by [`jwt_of`]; issuance and verification are verified against that name.
//! Verification checks the revocation store first, then the signature, then
//! the expiry against a caller-supplied clock reading.

use vstd::prelude::*;

use crate::data_stores::BannedTokenStore;
use crate::email::Email;
use crate::error::AuthAPIError;

verus! {

/// How long an issued token stays valid, in seconds.
pub const TOKEN_TTL_SECONDS: u64 = 600;

/// The signed payload of a session token: the subject address and the
/// expiry as a Unix timestamp.
#[derive(Debug)]
pub struct Claims {
    pub sub: String,
    pub exp: u64,
}

/// Names the signed encoding of the claims `(sub, exp)` under `secret`:
/// the token text that `jsonwebtoken::encode` produces, which depends only
/// on the claims and the secret.
pub uninterp spec fn jwt_of(sub: Seq<char>, exp: u64, secret: Seq<char>) -> Seq<char>;

/// An error from token issuance.
#[derive(Clone, Copy, Debug, PartialEq, Eq, Structural)]
pub enum GenerateTokenError {
    /// The token library reported a failure.
    TokenError,
    /// Anything else, such as an expiry that cannot be represented.
    UnexpectedError,
}

/// Relies on `jsonwebtoken::encode`: with the default header it signs the
/// serialized claims with the secret using HMAC-SHA256, a deterministic
/// function of claims and secret, and for this algorithm and claims shape
/// the encoding itself never fails.  The token is three non-empty
/// dot-separated parts, so it is never empty.
#[verifier::external_body]
fn jwt_encode(sub: &str, exp: u64, secret: &str) -> (r: Result<String, GenerateTokenError>)
    ensures
        r is Ok,
        r matches Ok(t) ==> t@ == jwt_of(sub@, exp, secret@) && t@.len() > 0,
{
    let mut claims = serde_json::Map::new();
    claims.insert("exp".to_string(), serde_json::Value::from(exp));
    claims.insert("sub".to_string(), serde_json::Value::from(sub));
    let key = jsonwebtoken::EncodingKey::from_secret(secret.as_bytes());
    let header = jsonwebtoken::Header::default();
    match jsonwebtoken::encode(&header, &serde_json::Value::Object(claims), &key) {
        Ok(t) => Ok(t),
        Err(_) => Err(GenerateTokenError::TokenError),
    }
}

/// Relies on `jsonwebtoken::decode`: with the time-based checks switched
/// off it verifies the signature against the secret and hands back the
/// claims, so a token produced by `encode` under the same secret decodes
/// to exactly the claims it was built from.
#[verifier::external_body]
fn jwt_decode(token: &str, secret: &str) -> (r: Result<Claims, GenerateTokenError>)
    ensures
        r matches Err(_) ==> forall|s: Seq<char>, e: u64| token@ != jwt_of(s, e, secret@),
        r matches Ok(c) ==> forall|s: Seq<char>, e: u64|
            token@ == jwt_of(s, e, secret@) ==> c.sub@ == s && c.exp == e,
{
    let mut validation = jsonwebtoken::Validation::new(jsonwebtoken::Algorithm::HS256);
    validation.validate_exp = false;
    validation.required_spec_claims = std::collections::HashSet::new();
    let key = jsonwebtoken::DecodingKey::from_secret(secret.as_bytes());
    let data = match jsonwebtoken::decode::<serde_json::Value>(token, &key, &validation) {
        Ok(d) => d,
        Err(_) => return Err(GenerateTokenError::TokenError),
    };
    let sub = data.claims.get("sub").and_then(|v| v.as_str());
    let exp = data.claims.get("exp").and_then(|v| v.as_u64());
    match (sub, exp) {
        (Some(s), Some(e)) => Ok(Claims { sub: s.to_string(), exp: e }),
        _ => Err(GenerateTokenError::TokenError),
    }
}

/// Relies on `chrono`: `Utc::now().timestamp()` is the current time in
/// whole seconds since the Unix epoch.
#[verifier::external_body]
pub fn current_unix_time() -> (t: i64) {
    chrono::Utc::now().timestamp()
}

/// Issues a signed token for an address, valid for [`TOKEN_TTL_SECONDS`]
/// from the caller-supplied clock reading `now`.
pub fn generate_auth_token(email: &Email, secret: &str, now: u64) -> (r: Result<
    String,
    GenerateTokenError,
>)
    ensures
        now + TOKEN_TTL_SECONDS <= u64::MAX ==> (r matches Ok(t) && t@ == jwt_of(
            email@,
            (now + TOKEN_TTL_SECONDS) as u64,
            secret@,
        ) && t@.len() > 0),
        now + TOKEN_TTL_SECONDS > u64::MAX ==> r == Err::<String, GenerateTokenError>(
            GenerateTokenError::UnexpectedError,
        ),
{
    if now > u64::MAX - TOKEN_TTL_SECONDS {
        return Err(GenerateTokenError::UnexpectedError);
    }
    let exp = now + TOKEN_TTL_SECONDS;
    jwt_encode(email.as_str(), exp, secret)
}

/// The transport descriptor of the session cookie: HTTP-only,
/// same-site-lax, for every path.
#[derive(Debug)]
pub struct AuthCookie {
    pub name: String,
    pub value: String,
    pub path: String,
    pub http_only: bool,
    pub same_site_lax: bool,
}

/// Builds the session cookie carrying a token.
pub fn create_auth_cookie(token: String) -> (c: AuthCookie)
    ensures
        c.name@ == "jwt"@,
        c.value@ == token@,
        c.path@ == "/"@,
        c.http_only,
        c.same_site_lax,
{
    AuthCookie {
        name: String::from_str("jwt"),
        value: token,
        path: String::from_str("/"),
        http_only: true,
        same_site_lax: true,
    }
}

/// Issues a token for an address and wraps it in the session cookie.
pub fn generate_auth_cookie(email: &Email, secret: &str, now: u64) -> (r: Result<
    AuthCookie,
    GenerateTokenError,
>)
    ensures
        now + TOKEN_TTL_SECONDS <= u64::MAX ==> (r matches Ok(c) && c.value@ == jwt_of(
            email@,
            (now + TOKEN_TTL_SECONDS) as u64,
            secret@,
        ) && c.value@.len() > 0 && c.name@ == "jwt"@ && c.path@ == "/"@ && c.http_only
            && c.same_site_lax),
        now + TOKEN_TTL_SECONDS > u64::MAX ==> r == Err::<AuthCookie, GenerateTokenError>(
            GenerateTokenError::UnexpectedError,
        ),
{
    let token = generate_auth_token(email, secret, now)?;
    Ok(create_auth_cookie(token))
}

/// Verifies a presented token: it must not be revoked, must carry a valid
/// signature under `secret`, and must not be expired at the clock reading
/// `now`.  The revocation check comes first, so a revoked token is
/// rejected regardless of cryptographic validity.
pub fn validate_token<B: BannedTokenStore>(
    banned_token_store: &B,
    token: &str,
    secret: &str,
    now: u64,
) -> (r: Result<Claims, AuthAPIError>)
    ensures
        banned_token_store.tokens().contains(token@) ==> (r matches Err(e) && e
            == AuthAPIError::InvalidToken),
        r matches Ok(c) ==> !banned_token_store.tokens().contains(token@) && c.exp > now,
        forall|s: Seq<char>, e: u64|
            token@ == jwt_of(s, e, secret@) && !banned_token_store.tokens().contains(token@) && e
                > now ==> (r matches Ok(c) && c.sub@ == s && c.exp == e),
        forall|s: Seq<char>, e: u64|
            token@ == jwt_of(s, e, secret@) && e <= now ==> (r matches Err(err) && err
                == AuthAPIError::InvalidToken),
{
    match banned_token_store.is_token_banned(token) {
        Ok(true) => {
            return Err(AuthAPIError::InvalidToken);
        },
        Ok(false) => {},
        Err(_) => {
            return Err(AuthAPIError::UnexpectedError(
                String::from_str("revocation store failure"),
            ));
        },
    }
    let claims = match jwt_decode(token, secret) {
        Ok(c) => c,
        Err(_) => {
            return Err(AuthAPIError::InvalidToken);
        },
    };
    if claims.exp > now {
        Ok(claims)
    } else {
        Err(AuthAPIError::InvalidToken)
    }
}

} // verus!
