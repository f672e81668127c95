use auth_service::data_stores::{
    BannedTokenStore, LoginAttemptId, TwoFACode, TwoFACodeStore, TwoFACodeStoreError, UserStore,
    UserStoreError,
};
use auth_service::email::Email;
use auth_service::hashing::compute_password_hash;
use auth_service::hashmap_two_fa_code_store::HashmapTwoFACodeStore;
use auth_service::hashmap_user_store::HashmapUserStore;
use auth_service::hashset_banned_token_store::HashsetBannedTokenStore;
use auth_service::password::Password;
use auth_service::user::User;

fn make_user(email: &str, password: &str, requires_2fa: bool) -> User {
    let email = Email::parse(email.to_owned()).unwrap();
    let password = Password::parse(password.to_owned()).unwrap();
    let hash = compute_password_hash(&password).unwrap();
    User::new(email, hash, requires_2fa)
}

#[test]
fn hashmap_user_store_test_add_user() {
    let mut store = HashmapUserStore::default();
    let user = make_user("me@example.com", "password123", false);
    let again = make_user("me@example.com", "password123", false);

    let result = store.add_user(user);
    assert_eq!(result, Ok(()));

    let result = store.add_user(again);
    assert_eq!(result, Err(UserStoreError::UserAlreadyExists));
}

#[test]
fn hashmap_user_store_test_get_user() {
    let mut store = HashmapUserStore::default();
    let email = Email::parse("me@example.com".to_owned()).unwrap();
    let user = make_user("me@example.com", "password123", false);

    store.add_user(user).unwrap();
    let found = store.get_user(&email).unwrap();
    assert_eq!(found.email.as_str(), "me@example.com");
    assert!(!found.requires_2fa);

    let missing = Email::parse("none@example.com".to_owned()).unwrap();
    let result = store.get_user(&missing);
    assert!(matches!(result, Err(UserStoreError::UserNotFound)));
}

#[test]
fn hashmap_user_store_test_validate_user() {
    let mut store = HashmapUserStore::default();
    let email = Email::parse("me@example.com".to_owned()).unwrap();
    let password = Password::parse("password123".to_owned()).unwrap();
    store.add_user(make_user("me@example.com", "password123", false)).unwrap();

    let result = store.validate_user(&email, &password);
    assert_eq!(result, Ok(()));

    let incorrect_password = Password::parse("wrongpassword".to_owned()).unwrap();
    let result = store.validate_user(&email, &incorrect_password);
    assert_eq!(result, Err(UserStoreError::IncorrectCredentials));

    let missing = Email::parse("none@example.com".to_owned()).unwrap();
    let result = store.validate_user(&missing, &password);
    assert_eq!(result, Err(UserStoreError::UserNotFound));
}

#[test]
fn hashset_banned_token_store_test_ban_token() {
    let mut store = HashsetBannedTokenStore::default();
    let token = "test_token_123".to_string();

    let result = store.ban_token(token.clone());
    assert_eq!(result, Ok(()));

    assert_eq!(store.is_token_banned(&token), Ok(true));
}

#[test]
fn hashset_banned_token_store_test_is_token_banned() {
    let mut store = HashsetBannedTokenStore::default();
    let banned_token = "banned_token_456".to_string();
    let clean_token = "clean_token_789";

    store.ban_token(banned_token.clone()).unwrap();

    let result = store.is_token_banned(&banned_token);
    assert_eq!(result, Ok(true));

    let result = store.is_token_banned(clean_token);
    assert_eq!(result, Ok(false));
}

#[test]
fn hashset_banned_token_store_test_ban_multiple_tokens() {
    let mut store = HashsetBannedTokenStore::default();
    let tokens = vec!["token1".to_string(), "token2".to_string(), "token3".to_string()];

    for token in &tokens {
        let result = store.ban_token(token.clone());
        assert_eq!(result, Ok(()));
    }

    for token in &tokens {
        let result = store.is_token_banned(token);
        assert_eq!(result, Ok(true));
    }

    let clean_token = "clean_token";
    let result = store.is_token_banned(clean_token);
    assert_eq!(result, Ok(false));
}

#[test]
fn hashset_banned_token_store_test_ban_duplicate_token() {
    let mut store = HashsetBannedTokenStore::default();
    let token = "duplicate_token".to_string();

    let result1 = store.ban_token(token.clone());
    let result2 = store.ban_token(token.clone());

    assert_eq!(result1, Ok(()));
    assert_eq!(result2, Ok(()));

    let result = store.is_token_banned(&token);
    assert_eq!(result, Ok(true));
}

#[test]
fn two_fa_code_store_roundtrip() {
    let mut store = HashmapTwoFACodeStore::default();
    let email = Email::parse("me@example.com".to_owned()).unwrap();
    let id = LoginAttemptId::default();
    let code = TwoFACode::default();

    store.add_code(email.clone(), id.clone(), code.clone()).unwrap();
    let (stored_id, stored_code) = store.get_code(&email).unwrap();
    assert!(stored_id == id);
    assert!(stored_code == code);

    store.remove_code(&email).unwrap();
    let result = store.get_code(&email);
    assert!(matches!(result, Err(TwoFACodeStoreError::LoginAttemptIdNotFound)));
}

#[test]
fn two_fa_code_store_replaces_existing_challenge() {
    let mut store = HashmapTwoFACodeStore::default();
    let email = Email::parse("me@example.com".to_owned()).unwrap();
    let first_id = LoginAttemptId::default();
    let first_code = TwoFACode::parse("111111".to_owned()).unwrap();
    let second_id = LoginAttemptId::default();
    let second_code = TwoFACode::parse("222222".to_owned()).unwrap();

    store.add_code(email.clone(), first_id, first_code).unwrap();
    store.add_code(email.clone(), second_id.clone(), second_code.clone()).unwrap();

    let (stored_id, stored_code) = store.get_code(&email).unwrap();
    assert!(stored_id == second_id);
    assert!(stored_code == second_code);
}

#[test]
fn two_fa_code_store_missing_entry_is_not_found() {
    let store = HashmapTwoFACodeStore::default();
    let email = Email::parse("nobody@example.com".to_owned()).unwrap();
    assert!(matches!(
        store.get_code(&email),
        Err(TwoFACodeStoreError::LoginAttemptIdNotFound)
    ));
}
