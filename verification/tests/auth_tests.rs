use auth_service::auth::{
    create_auth_cookie, current_unix_time, generate_auth_cookie, generate_auth_token,
    validate_token, TOKEN_TTL_SECONDS,
};
use auth_service::data_stores::BannedTokenStore;
use auth_service::email::Email;
use auth_service::error::AuthAPIError;
use auth_service::hashset_banned_token_store::HashsetBannedTokenStore;

const SECRET: &str = "test_secret_key_for_unit_tests_only";

fn now() -> u64 {
    let t = current_unix_time();
    assert!(t > 0);
    t as u64
}

#[test]
fn test_generate_auth_cookie() {
    let email = Email::parse("test@example.com".to_owned()).unwrap();
    let cookie = generate_auth_cookie(&email, SECRET, now()).unwrap();
    assert_eq!(cookie.name, "jwt");
    assert_eq!(cookie.value.split('.').count(), 3);
    assert_eq!(cookie.path, "/");
    assert!(cookie.http_only);
    assert!(cookie.same_site_lax);
}

#[test]
fn test_create_auth_cookie() {
    let token = "test_token".to_owned();
    let cookie = create_auth_cookie(token.clone());
    assert_eq!(cookie.name, "jwt");
    assert_eq!(cookie.value, token);
    assert_eq!(cookie.path, "/");
    assert!(cookie.http_only);
    assert!(cookie.same_site_lax);
}

#[test]
fn test_generate_auth_token() {
    let email = Email::parse("test@example.com".to_owned()).unwrap();
    let result = generate_auth_token(&email, SECRET, now()).unwrap();
    assert_eq!(result.split('.').count(), 3);
}

#[test]
fn test_validate_token_with_valid_token() {
    let email = Email::parse("test@example.com".to_owned()).unwrap();
    let issued_at = now();
    let token = generate_auth_token(&email, SECRET, issued_at).unwrap();
    let banned_token_store = HashsetBannedTokenStore::default();
    let result = validate_token(&banned_token_store, &token, SECRET, now()).unwrap();
    assert_eq!(result.sub, "test@example.com");
    assert_eq!(result.exp, issued_at + TOKEN_TTL_SECONDS);
    assert!(result.exp > now() + 9 * 60);
}

#[test]
fn test_validate_token_with_invalid_token() {
    let token = "invalid_token".to_owned();
    let banned_token_store = HashsetBannedTokenStore::default();
    let result = validate_token(&banned_token_store, &token, SECRET, now());
    assert!(result.is_err());
}

#[test]
fn test_validate_token_with_banned_token() {
    let email = Email::parse("test@example.com".to_owned()).unwrap();
    let token = generate_auth_token(&email, SECRET, now()).unwrap();
    let mut banned_token_store = HashsetBannedTokenStore::default();
    banned_token_store.ban_token(token.clone()).unwrap();
    let result = validate_token(&banned_token_store, &token, SECRET, now());
    assert!(matches!(result, Err(AuthAPIError::InvalidToken)));
}

#[test]
fn validate_token_rejects_expired_token() {
    let email = Email::parse("test@example.com".to_owned()).unwrap();
    let issued_at = now() - 2 * TOKEN_TTL_SECONDS;
    let token = generate_auth_token(&email, SECRET, issued_at).unwrap();
    let banned_token_store = HashsetBannedTokenStore::default();
    let result = validate_token(&banned_token_store, &token, SECRET, now());
    assert!(matches!(result, Err(AuthAPIError::InvalidToken)));
}

#[test]
fn validate_token_rejects_token_signed_with_other_secret() {
    let email = Email::parse("test@example.com".to_owned()).unwrap();
    let token = generate_auth_token(&email, "some_other_secret_value", now()).unwrap();
    let banned_token_store = HashsetBannedTokenStore::default();
    let result = validate_token(&banned_token_store, &token, SECRET, now());
    assert!(matches!(result, Err(AuthAPIError::InvalidToken)));
}
