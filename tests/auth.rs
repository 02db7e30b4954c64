use auth_service::domain::BannedTokenStoreError;
use auth_service::domain::data_stores::BannedTokenStore;
use auth_service::domain::Email;
use auth_service::services::HashsetBannedTokenStore;
use auth_service::utils::auth::{
    auth_token_at, create_token, generate_auth_token, is_expired, judge_token, token_expiry,
    validate_token, Claims,
    TokenError, TOKEN_TTL_SECONDS,
};

const SECRET: &str = "test-signing-secret";

fn now() -> i64 {
    std::time::SystemTime::now()
        .duration_since(std::time::UNIX_EPOCH)
        .unwrap()
        .as_secs() as i64
}

#[test]
fn test_generate_auth_token() {
    let email = Email::parse("test@example.com".to_owned()).unwrap();
    let result = generate_auth_token(&email, SECRET).unwrap();
    assert_eq!(result.split('.').count(), 3);
}

#[test]
fn test_validate_token_with_valid_token() {
    let empty_banned_store = HashsetBannedTokenStore::default();
    let email = Email::parse("test@example.com".to_owned()).unwrap();
    let token = generate_auth_token(&email, SECRET).unwrap();
    let result = validate_token(&empty_banned_store, &token, SECRET).unwrap();
    assert_eq!(result.sub, "test@example.com");

    let exp = now() + 9 * 60;
    assert!(result.exp > exp as u64);
}

#[test]
fn test_validate_token_with_invalid_token() {
    let empty_banned_store = HashsetBannedTokenStore::default();
    let token = "invalid_token".to_owned();
    let result = validate_token(&empty_banned_store, &token, SECRET);
    assert!(result.is_err());
}

#[test]
fn token_expiry_adds_ttl() {
    assert_eq!(TOKEN_TTL_SECONDS, 600);
    assert_eq!(token_expiry(1_700_000_000), Some(1_700_000_600));
    assert_eq!(token_expiry(-600), Some(0));
    assert_eq!(token_expiry(-601), None);
    assert_eq!(token_expiry(i64::MAX), None);
}

#[test]
fn auth_token_at_carries_subject_and_expiry() {
    let email = Email::parse("sub@example.com".to_owned()).unwrap();
    let issued = now();
    let token = auth_token_at(&email, issued, SECRET).unwrap();
    let claims = validate_token(&HashsetBannedTokenStore::default(), &token, SECRET).unwrap();
    assert_eq!(claims.sub, "sub@example.com");
    assert_eq!(claims.exp, (issued + 600) as u64);
    assert_eq!(auth_token_at(&email, -601, SECRET), Err(TokenError::UnexpectedError));
}

#[test]
fn create_token_is_deterministic() {
    let claims = Claims { sub: "a@example.com".to_owned(), exp: 4_000_000_000 };
    let t1 = create_token(&claims, SECRET).unwrap();
    let t2 = create_token(&claims, SECRET).unwrap();
    assert_eq!(t1, t2);
    let t3 = create_token(&claims, "another-secret").unwrap();
    assert_ne!(t1, t3);
}

#[test]
fn token_with_other_secret_is_bad_signature() {
    let email = Email::parse("x@example.com".to_owned()).unwrap();
    let token = generate_auth_token(&email, "one-secret").unwrap();
    let r = validate_token(&HashsetBannedTokenStore::default(), &token, "other-secret");
    assert_eq!(r.unwrap_err(), TokenError::BadSignature);
}

#[test]
fn expired_token_is_expired() {
    let claims = Claims { sub: "old@example.com".to_owned(), exp: 1_000 };
    let token = create_token(&claims, SECRET).unwrap();
    let r = validate_token(&HashsetBannedTokenStore::default(), &token, SECRET);
    assert_eq!(r.unwrap_err(), TokenError::Expired);
}

#[test]
fn banned_token_is_revoked_before_decoding() {
    let email = Email::parse("ban@example.com".to_owned()).unwrap();
    let token = generate_auth_token(&email, SECRET).unwrap();
    let mut store = HashsetBannedTokenStore::default();
    assert!(validate_token(&store, &token, SECRET).is_ok());
    store.add_token(&token).unwrap();
    assert_eq!(validate_token(&store, &token, SECRET).unwrap_err(), TokenError::Revoked);
    // revocation wins even for a token that would not decode
    store.add_token("garbage").unwrap();
    assert_eq!(validate_token(&store, "garbage", SECRET).unwrap_err(), TokenError::Revoked);
}

#[test]
fn expiry_allows_sixty_seconds_of_leeway() {
    assert!(!is_expired(1_000, 1_060));
    assert!(is_expired(1_000, 1_061));
    assert!(!is_expired(1_000, -5));
}

#[test]
fn judge_token_follows_the_ledger_then_the_token() {
    let claims = Claims { sub: "j@example.com".to_owned(), exp: 5_000 };
    let token = create_token(&claims, SECRET).unwrap();
    assert_eq!(
        judge_token(Err(BannedTokenStoreError::UnexpectedError), &token, SECRET, 4_000).unwrap_err(),
        TokenError::UnexpectedError
    );
    assert_eq!(judge_token(Ok(true), &token, SECRET, 4_000).unwrap_err(), TokenError::Revoked);
    let ok = judge_token(Ok(false), &token, SECRET, 4_000).unwrap();
    assert_eq!(ok.sub, "j@example.com");
    assert_eq!(ok.exp, 5_000);
    assert_eq!(judge_token(Ok(false), &token, SECRET, 5_061).unwrap_err(), TokenError::Expired);
    assert_eq!(judge_token(Ok(false), &token, "wrong", 4_000).unwrap_err(), TokenError::BadSignature);
    assert_eq!(judge_token(Ok(false), "a.b.c", SECRET, 4_000).unwrap_err(), TokenError::BadSignature);
}
