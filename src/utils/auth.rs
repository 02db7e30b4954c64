use vstd::prelude::*;
use jsonwebtoken::{DecodingKey, EncodingKey, Header, Validation};
use crate::domain::data_stores::{BannedTokenStore, BannedTokenStoreError};
use crate::domain::email::Email;

verus! {

/// How long a session token stays valid, in seconds.
pub const TOKEN_TTL_SECONDS: i64 = 600;

/// The claims that a session token carries: its subject (an e-mail address)
/// and its expiry, in seconds since the Unix epoch.
#[derive(Debug, Clone)]
pub struct Claims {
    pub sub: String,
    pub exp: u64,
}

/// Why a session token is refused, or could not be made.
#[derive(Debug, Clone, Copy, PartialEq, Eq)]
pub enum TokenError {
    Revoked,
    Expired,
    BadSignature,
    UnexpectedError,
}

/// The HS256 JSON Web Token that `jsonwebtoken` makes from the claims
/// `{"exp": exp, "sub": sub}` under the default header and the given secret.
pub uninterp spec fn hs256_jwt(sub: Seq<char>, exp: nat, secret: Seq<char>) -> Seq<char>;

/// The subject and expiry that `jsonwebtoken` reads from `token` when its HS256
/// signature holds under `secret`, it carries a string `sub` and an `exp` that
/// fits a `u64`, and no audience; `None` otherwise. The clock plays no part.
pub uninterp spec fn hs256_claims(token: Seq<char>, secret: Seq<char>) -> Option<(Seq<char>, nat)>;

/// Relies on `jsonwebtoken::encode` with `Header::default()` (HS256) and
/// `EncodingKey::from_secret`: the claims go in as a JSON object, whose keys
/// `serde_json` keeps sorted, and the token depends on claims and secret alone.
/// It cannot fail: the key family matches HS256, a map of a string and a
/// number always serialises, and HMAC signing always succeeds.
#[verifier::external_body]
fn encode_hs256(claims: &Claims, secret: &str) -> (r: Option<String>)
    ensures
        r is Some,
        r matches Some(t) ==> t@ == hs256_jwt(claims.sub@, claims.exp as nat, secret@),
{
    let mut object = serde_json::Map::new();
    object.insert("sub".to_owned(), serde_json::Value::from(claims.sub.as_str()));
    object.insert("exp".to_owned(), serde_json::Value::from(claims.exp));
    let key = EncodingKey::from_secret(secret.as_bytes());
    jsonwebtoken::encode(&Header::default(), &object, &key).ok()
}

/// Relies on `jsonwebtoken::decode` with HS256, `exp` required and the expiry
/// check switched off, and `DecodingKey::from_secret`: the result depends on
/// token and secret alone. A token that `encode` made from a string subject and
/// a `u64` expiry under the same secret reads back as those claims.
#[verifier::external_body]
fn decode_hs256(token: &str, secret: &str) -> (r: Option<Claims>)
    ensures
        match r {
            Some(c) => hs256_claims(token@, secret@) == Some((c.sub@, c.exp as nat)),
            None => hs256_claims(token@, secret@) is None,
        },
        forall|sub: Seq<char>, exp: nat|
            #[trigger] hs256_jwt(sub, exp, secret@) == token@ && exp <= u64::MAX ==> match r {
                Some(c) => c.sub@ == sub && c.exp == exp,
                None => false,
            },
{
    let key = DecodingKey::from_secret(secret.as_bytes());
    let mut validation = Validation::default();
    validation.validate_exp = false;
    let data = jsonwebtoken::decode::<serde_json::Map<String, serde_json::Value>>(token, &key, &validation).ok()?;
    let sub = data.claims.get("sub").and_then(|v| v.as_str())?;
    let exp = data.claims.get("exp").and_then(|v| v.as_u64())?;
    Some(Claims { sub: sub.to_owned(), exp })
}

/// Seconds in 2^31 days: no time that chrono's clock reports reaches it.
pub const UNIX_NOW_BOUND: i64 = 185_542_587_187_200;

/// Relies on `chrono::Utc::now().timestamp()`: the current time in seconds
/// since the Unix epoch. `Utc::now` panics on a clock set before 1970 and
/// unwraps `DateTime::from_timestamp`, which refuses a day count beyond
/// `i32::MAX`, so the value is non-negative and below 2^31 days.
#[verifier::external_body]
fn unix_now() -> (r: i64)
    ensures
        0 <= r < UNIX_NOW_BOUND,
{
    chrono::Utc::now().timestamp()
}

/// The expiry of a token issued at `now`, when it is a valid timestamp.
pub open spec fn expiry_at(now: int) -> Option<nat> {
    if 0 <= now + TOKEN_TTL_SECONDS <= i64::MAX {
        Some((now + TOKEN_TTL_SECONDS) as nat)
    } else {
        None
    }
}

/// The expiry of a token issued at `now`: `TOKEN_TTL_SECONDS` later, or `None`
/// where that moment is negative or does not fit an `i64`.
pub fn token_expiry(now: i64) -> (r: Option<u64>)
    ensures
        match expiry_at(now as int) {
            Some(e) => r == Some(e as u64),
            None => r is None,
        },
{
    match now.checked_add(TOKEN_TTL_SECONDS) {
        Some(exp) => if exp >= 0 {
            Some(exp as u64)
        } else {
            None
        },
        None => None,
    }
}

/// Signs the claims with the secret.
pub fn create_token(claims: &Claims, jwt_secret: &str) -> (r: Result<String, TokenError>)
    ensures
        r matches Ok(t) && t@ == hs256_jwt(claims.sub@, claims.exp as nat, jwt_secret@),
{
    match encode_hs256(claims, jwt_secret) {
        Some(t) => Ok(t),
        None => Err(TokenError::UnexpectedError),
    }
}

/// The session token for `email` issued at time `now`.
pub fn auth_token_at(email: &Email, now: i64, jwt_secret: &str) -> (r: Result<String, TokenError>)
    ensures
        match expiry_at(now as int) {
            Some(exp) => r matches Ok(t) && t@ == hs256_jwt(email@, exp, jwt_secret@),
            None => r == Err::<String, TokenError>(TokenError::UnexpectedError),
        },
{
    let exp = match token_expiry(now) {
        Some(exp) => exp,
        None => return Err(TokenError::UnexpectedError),
    };
    let claims = Claims { sub: email.as_str().to_owned(), exp };
    create_token(&claims, jwt_secret)
}

/// `t` is a session token for `email` under the secret, issued at some time.
pub open spec fn is_session_token_for(t: Seq<char>, email: Seq<char>, secret: Seq<char>) -> bool {
    exists|now: int|
        #![trigger expiry_at(now)]
        expiry_at(now) is Some && t == hs256_jwt(email, expiry_at(now)->0, secret)
}

/// A session token for `email` that expires `TOKEN_TTL_SECONDS` from now.
pub fn generate_auth_token(email: &Email, jwt_secret: &str) -> (r: Result<String, TokenError>)
    ensures
        r matches Ok(t) && is_session_token_for(t@, email@, jwt_secret@),
{
    let now = unix_now();
    auth_token_at(email, now, jwt_secret)
}

/// The refusal that the revocation ledger alone decides: a banned token is
/// revoked, before its signature or expiry is looked at.
pub open spec fn revocation_verdict(banned: Set<Seq<char>>, token: Seq<char>) -> Option<TokenError> {
    if banned.contains(token) {
        Some(TokenError::Revoked)
    } else {
        None
    }
}

/// Once a token is banned, validating it fails as revoked, however good its
/// signature and expiry.
pub proof fn lemma_banned_token_revoked(banned: Set<Seq<char>>, token: Seq<char>)
    ensures
        revocation_verdict(banned.insert(token), token) == Some(TokenError::Revoked),
{
}

/// Seconds of grace past a token's expiry, as `jsonwebtoken` allows by default.
pub const EXPIRY_LEEWAY_SECONDS: u64 = 60;

/// A token that expires at `exp` is expired at time `now`.
pub open spec fn token_expired(exp: nat, now: int) -> bool {
    exp + EXPIRY_LEEWAY_SECONDS < now
}

/// Whether a token that expires at `exp` is expired at time `now`.
pub fn is_expired(exp: u64, now: i64) -> (r: bool)
    ensures
        r == token_expired(exp as nat, now as int),
{
    if now < 0 {
        false
    } else {
        (exp as u128) + (EXPIRY_LEEWAY_SECONDS as u128) < now as u128
    }
}

/// The outcome of validating `token` at time `now`, given what the revocation
/// ledger answered: a failed lookup is an unexpected error, a banned token is
/// revoked, and otherwise the token must carry a good signature and not be
/// expired.
pub open spec fn token_outcome(
    lookup: Result<bool, BannedTokenStoreError>,
    token: Seq<char>,
    secret: Seq<char>,
    now: int,
) -> Option<TokenError> {
    match lookup {
        Err(_) => Some(TokenError::UnexpectedError),
        Ok(true) => Some(TokenError::Revoked),
        Ok(false) => match hs256_claims(token, secret) {
            None => Some(TokenError::BadSignature),
            Some(claims) => if token_expired(claims.1, now) {
                Some(TokenError::Expired)
            } else {
                None
            },
        },
    }
}

/// Decides a token once the ledger has answered and the time is known. The
/// token is decoded only when the ledger has cleared it.
pub fn judge_token(
    lookup: Result<bool, BannedTokenStoreError>,
    token: &str,
    jwt_secret: &str,
    now: i64,
) -> (r: Result<Claims, TokenError>)
    ensures
        match token_outcome(lookup, token@, jwt_secret@, now as int) {
            Some(e) => r == Err::<Claims, TokenError>(e),
            None => r matches Ok(c) && hs256_claims(token@, jwt_secret@) == Some(
                (c.sub@, c.exp as nat),
            ),
        },
        forall|sub: Seq<char>, exp: nat|
            #[trigger] hs256_jwt(sub, exp, jwt_secret@) == token@ && exp <= u64::MAX && lookup
                == Ok::<bool, BannedTokenStoreError>(false) && !token_expired(exp, now as int) ==> (r matches Ok(
                c,
            ) && c.sub@ == sub && c.exp == exp),
{
    match lookup {
        Err(_) => Err(TokenError::UnexpectedError),
        Ok(true) => Err(TokenError::Revoked),
        Ok(false) => match decode_hs256(token, jwt_secret) {
            None => Err(TokenError::BadSignature),
            Some(claims) => if is_expired(claims.exp, now) {
                Err(TokenError::Expired)
            } else {
                Ok(claims)
            },
        },
    }
}

/// Checks a session token: a banned token is refused as revoked without
/// further work; any other is refused when its signature does not hold or it
/// has expired, and otherwise yields its claims.
pub fn validate_token<S: BannedTokenStore + ?Sized>(banned_token_store: &S, token: &str, jwt_secret: &str) -> (r:
    Result<Claims, TokenError>)
    ensures
        exists|lookup: Result<bool, BannedTokenStoreError>, now: int|
            #![trigger token_outcome(lookup, token@, jwt_secret@, now)]
            {
                &&& 0 <= now < UNIX_NOW_BOUND
                &&& lookup matches Ok(b) ==> b == banned_token_store.banned().contains(token@)
                &&& lookup is Err ==> !banned_token_store.never_fails()
                &&& match token_outcome(lookup, token@, jwt_secret@, now) {
                    Some(e) => r == Err::<Claims, TokenError>(e),
                    None => r matches Ok(c) && hs256_claims(token@, jwt_secret@) == Some(
                        (c.sub@, c.exp as nat),
                    ),
                }
            },
        revocation_verdict(banned_token_store.banned(), token@) matches Some(e) ==> r == Err::<
            Claims,
            TokenError,
        >(e) || (!banned_token_store.never_fails() && r == Err::<Claims, TokenError>(
            TokenError::UnexpectedError,
        )),
{
    let lookup = banned_token_store.has_token(token);
    let now = unix_now();
    judge_token(lookup, token, jwt_secret, now)
}

} // verus!
