//! Who may log in to the server, what the tokens it issues claim, and how a
//! request presents its token.
use std::cmp::Reverse;
use vstd::prelude::*;

verus! {

/// Seconds that an access token lasts.
pub const ACCESS_TOKEN_SECS: usize = 900;

/// Seconds that a refresh token lasts.
pub const REFRESH_TOKEN_SECS: usize = 604800;

/// Seconds that a token of the simple login endpoint lasts.
pub const SIMPLE_TOKEN_SECS: i64 = 86400;

/// What an access token claims: its subject and when it expires.
#[derive(Debug, Clone)]
pub struct Claims {
    pub sub: String,
    pub exp: usize,
}

/// What a refresh token claims.
#[derive(Debug, Clone)]
pub struct RefreshClaims {
    pub sub: String,
    pub exp: usize,
}

/// A login attempt.
#[derive(Debug, Clone)]
pub struct LoginRequest {
    pub username: String,
    pub password: String,
}

/// A request for a new access token.
#[derive(Debug, Clone)]
pub struct RefreshRequest {
    pub refresh_token: String,
}

/// The answer of the simple login endpoint.
#[derive(Debug, Clone)]
pub struct LoginResponse {
    pub token: String,
    pub expires_in: i64,
}

/// Whether a login with these credentials is accepted.
pub open spec fn valid_credentials(username: Seq<char>, password: Seq<char>) -> bool {
    username == "admin"@ && password == "password"@
}

/// Whether the credentials of `req` are accepted.
pub fn check_credentials(req: &LoginRequest) -> (ok: bool)
    ensures
        ok == valid_credentials(req.username@, req.password@),
{
    crate::text::str_eq(req.username.as_str(), "admin") && crate::text::str_eq(
        req.password.as_str(),
        "password",
    )
}

/// The claims of the two tokens issued at `now` for an accepted login, or
/// `None` when the credentials are refused.
pub fn login_claims(req: &LoginRequest, now: usize) -> (r: Option<(Claims, RefreshClaims)>)
    requires
        now + REFRESH_TOKEN_SECS <= usize::MAX,
    ensures
        r is Some <==> valid_credentials(req.username@, req.password@),
        match r {
            Some((access, refresh)) => {
                &&& access.sub@ == req.username@
                &&& access.exp == now + ACCESS_TOKEN_SECS
                &&& refresh.sub@ == req.username@
                &&& refresh.exp == now + REFRESH_TOKEN_SECS
            },
            None => true,
        },
{
    if check_credentials(req) {
        let access = Claims { sub: req.username.clone(), exp: now + ACCESS_TOKEN_SECS };
        let refresh = RefreshClaims { sub: req.username.clone(), exp: now + REFRESH_TOKEN_SECS };
        Some((access, refresh))
    } else {
        None
    }
}

/// The claims of a new access token issued at `now` for the holder of a
/// valid refresh token.
pub fn refreshed_claims(refresh: &RefreshClaims, now: usize) -> (c: Claims)
    requires
        now + ACCESS_TOKEN_SECS <= usize::MAX,
    ensures
        c.sub@ == refresh.sub@,
        c.exp == now + ACCESS_TOKEN_SECS,
{
    Claims { sub: refresh.sub.clone(), exp: now + ACCESS_TOKEN_SECS }
}

/// The answer of the simple login endpoint for an issued token.
pub fn login_response(token: String) -> (r: LoginResponse)
    ensures
        r.token@ == token@,
        r.expires_in == SIMPLE_TOKEN_SECS,
{
    LoginResponse { token, expires_in: SIMPLE_TOKEN_SECS }
}

/// Why a request's token is refused.
#[derive(Debug, Clone, Copy, PartialEq, Eq, Structural)]
pub enum AuthError {
    MissingAuthorizationHeader,
    InvalidTokenType,
    /// The token does not decode, its signature does not match, or it has
    /// expired.
    InvalidToken,
}

/// The token of an `Authorization` header of the form `Bearer <token>`.
pub fn bearer_token(header: Option<&str>) -> (r: Result<String, AuthError>)
    ensures
        match header {
            None => r == Err::<String, AuthError>(AuthError::MissingAuthorizationHeader),
            Some(h) => match r {
                Ok(t) => crate::text::starts_with(h@, "Bearer "@) && t@ == h@.skip(7),
                Err(e) => e == AuthError::InvalidTokenType && !crate::text::starts_with(h@, "Bearer "@),
            },
        },
{
    match header {
        None => Err(AuthError::MissingAuthorizationHeader),
        Some(h) => {
            proof {
                reveal_strlit("Bearer ");
            }
            match crate::text::strip_prefix(h, "Bearer ") {
                Some(t) => Ok(t),
                None => Err(AuthError::InvalidTokenType),
            }
        },
    }
}


// ------------------------------------------------------------------ tokens

/// The signed token (HS256, default header) whose claims are the subject
/// `sub` and the expiry `exp`, written `{"sub":..,"exp":..}`, signed with
/// `key`, as `jsonwebtoken::encode` writes it.
pub uninterp spec fn jwt_for(sub: Seq<char>, exp: int, key: Seq<u8>) -> Seq<char>;

/// What `token` says when it is checked with `key` regardless of the
/// clock: its subject and expiry, where its header names HS256, its HMAC
/// signature matches under `key`, and its claims hold a string `sub` and an
/// `exp` that `jsonwebtoken` reads as a whole number; `None` otherwise.
pub uninterp spec fn jwt_claims_under(token: Seq<char>, key: Seq<u8>) -> Option<(Seq<char>, int)>;

/// `jsonwebtoken::encode` with the default header (HS256) of the claims
/// object `{"sub": sub, "exp": exp}`, signed with `key` (the keys are held
/// in reverse order so that `sub` is written first).  HS256 signing with a
/// secret cannot fail and is deterministic, so a token always comes back,
/// named [`jwt_for`] of the subject, expiry and key; checked with the same
/// key, it gives back that subject and expiry.
#[verifier::external_body]
pub(crate) fn encode_token(sub: &str, exp: usize, key: &[u8]) -> (r: Option<String>)
    ensures
        r is Some,
        r matches Some(t) ==> t@ == jwt_for(sub@, exp as int, key@) && jwt_claims_under(t@, key@) == Some(
            (sub@, exp as int),
        ),
{
    let mut claims = std::collections::BTreeMap::new();
    claims.insert(Reverse("sub"), serde_json::Value::from(sub));
    claims.insert(Reverse("exp"), serde_json::Value::from(exp));
    let key = jsonwebtoken::EncodingKey::from_secret(key);
    jsonwebtoken::encode(&jsonwebtoken::Header::default(), &claims, &key).ok()
}

/// `jsonwebtoken::decode` of `token` with `key` under HS256 validation, and
/// the string subject of its claims.  Validation also compares the expiry
/// with the clock, so whether a token is accepted is left unsaid; an
/// accepted token has a matching signature, and the subject returned is
/// the one [`jwt_claims_under`] gives.
#[verifier::external_body]
pub(crate) fn decode_token(token: &str, key: &[u8]) -> (r: Option<String>)
    ensures
        r matches Some(s) ==> jwt_claims_under(token@, key@) matches Some(c) && c.0 == s@,
{
    let key = jsonwebtoken::DecodingKey::from_secret(key);
    let validation = jsonwebtoken::Validation::new(jsonwebtoken::Algorithm::HS256);
    match jsonwebtoken::decode::<serde_json::Value>(token, &key, &validation) {
        Ok(data) => match data.claims.get("sub") {
            Some(s) => match s.as_str() {
                Some(t) => Some(t.to_owned()),
                None => None,
            },
            None => None,
        },
        Err(_) => None,
    }
}

/// What a login answers.
#[derive(Debug, Clone)]
pub enum LoginOutcome {
    /// The access token and the refresh token.
    Tokens { token: String, refresh_token: String },
    /// "Invalid credentials".
    InvalidCredentials,
    /// "Failed to generate tokens".
    SigningFailed,
}

/// The login of `req` at `now`: for accepted credentials, an access token
/// for fifteen minutes and a refresh token for seven days, both for the
/// user and signed with `key`; the refusal otherwise.
pub fn login(req: &LoginRequest, now: usize, key: &[u8]) -> (r: LoginOutcome)
    requires
        now + REFRESH_TOKEN_SECS <= usize::MAX,
    ensures
        r is InvalidCredentials <==> !valid_credentials(req.username@, req.password@),
        valid_credentials(req.username@, req.password@) ==> r is Tokens,
        r matches LoginOutcome::Tokens { token, refresh_token } ==> {
            &&& token@ == jwt_for(req.username@, now + ACCESS_TOKEN_SECS, key@)
            &&& refresh_token@ == jwt_for(req.username@, now + REFRESH_TOKEN_SECS, key@)
            &&& jwt_claims_under(token@, key@) == Some((req.username@, now + ACCESS_TOKEN_SECS))
            &&& jwt_claims_under(refresh_token@, key@) == Some((req.username@, now + REFRESH_TOKEN_SECS))
        },
{
    match login_claims(req, now) {
        Some((access, refresh)) => {
            let t = encode_token(access.sub.as_str(), access.exp, key);
            let rt = encode_token(refresh.sub.as_str(), refresh.exp, key);
            match (t, rt) {
                (Some(token), Some(refresh_token)) => LoginOutcome::Tokens { token, refresh_token },
                _ => LoginOutcome::SigningFailed,
            }
        },
        None => LoginOutcome::InvalidCredentials,
    }
}

/// What a token refresh answers.
#[derive(Debug, Clone)]
pub enum RefreshOutcome {
    /// The new access token.
    Token(String),
    /// "Invalid refresh token".
    InvalidToken,
    /// "Token generation failed".
    SigningFailed,
}

/// The refresh at `now` for a refresh token whose decoding gave the
/// subject `decoded` (`None` where it was refused): a new access token for
/// fifteen minutes for that subject, signed with `key`.
pub fn refresh_from(decoded: Option<String>, now: usize, key: &[u8]) -> (r: RefreshOutcome)
    requires
        now + ACCESS_TOKEN_SECS <= usize::MAX,
    ensures
        decoded is None <==> r is InvalidToken,
        decoded is Some ==> r is Token,
        r matches RefreshOutcome::Token(t) ==> decoded matches Some(s) && t@ == jwt_for(
            s@,
            now + ACCESS_TOKEN_SECS,
            key@,
        ) && jwt_claims_under(t@, key@) == Some((s@, now + ACCESS_TOKEN_SECS)),
{
    match decoded {
        Some(sub) => {
            let claims = refreshed_claims(&RefreshClaims { sub, exp: 0 }, now);
            match encode_token(claims.sub.as_str(), claims.exp, key) {
                Some(t) => RefreshOutcome::Token(t),
                None => RefreshOutcome::SigningFailed,
            }
        },
        None => RefreshOutcome::InvalidToken,
    }
}

/// The refresh at `now` of the refresh token `token`: it is decoded with
/// `key`, and a token for its subject is issued as [`refresh_from`] says.
pub fn refresh(token: &str, now: usize, key: &[u8]) -> (r: RefreshOutcome)
    requires
        now + ACCESS_TOKEN_SECS <= usize::MAX,
    ensures
        r matches RefreshOutcome::Token(t) ==> jwt_claims_under(token@, key@) matches Some(c) && t@ == jwt_for(
            c.0,
            now + ACCESS_TOKEN_SECS,
            key@,
        ) && jwt_claims_under(t@, key@) == Some((c.0, now + ACCESS_TOKEN_SECS)),
{
    let decoded = decode_token(token, key);
    refresh_from(decoded, now, key)
}

/// The subject of the token that a request's `Authorization` header
/// presents: refused where the header is missing, is not a bearer token, or
/// its token does not decode with `key` (as [`bearer_token`] and the
/// decoding decide).  An accepted token is signed under `key`, and the
/// subject returned is the one it claims.
pub fn authorize(header: Option<&str>, key: &[u8]) -> (r: Result<String, AuthError>)
    ensures
        match header {
            None => r == Err::<String, AuthError>(AuthError::MissingAuthorizationHeader),
            Some(h) => if crate::text::starts_with(h@, "Bearer "@) {
                &&& (r is Ok || r == Err::<String, AuthError>(AuthError::InvalidToken))
                &&& (r matches Ok(s) ==> jwt_claims_under(h@.skip(7), key@) matches Some(c) && c.0 == s@)
            } else {
                r == Err::<String, AuthError>(AuthError::InvalidTokenType)
            },
        },
{
    match bearer_token(header) {
        Ok(token) => match decode_token(token.as_str(), key) {
            Some(sub) => Ok(sub),
            None => Err(AuthError::InvalidToken),
        },
        Err(e) => Err(e),
    }
}
} // verus!
