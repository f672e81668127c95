use auth_service::auth::current_unix_time;
use auth_service::data_stores::TwoFACodeStore;
use auth_service::email::Email;
use auth_service::email_client::MockEmailClient;
use auth_service::error::AuthAPIError;
use auth_service::hashmap_two_fa_code_store::HashmapTwoFACodeStore;
use auth_service::hashmap_user_store::HashmapUserStore;
use auth_service::hashset_banned_token_store::HashsetBannedTokenStore;
use auth_service::login::{login, LoginRequest, LoginResponse};
use auth_service::logout::logout;
use auth_service::signup::{signup, SignupRequest};
use auth_service::verify_2fa::{verify_2fa, Verify2FARequest};
use auth_service::verify_token::{verify_token, VerifyTokenRequest};

const SECRET: &str = "test_secret_key_for_unit_tests_only";

fn now() -> u64 {
    current_unix_time() as u64
}

fn signup_request(email: &str, password: &str, requires_2fa: bool) -> SignupRequest {
    SignupRequest {
        email: email.to_owned(),
        password: password.to_owned(),
        requires_2fa,
    }
}

fn login_request(email: &str, password: &str) -> LoginRequest {
    LoginRequest { email: email.to_owned(), password: password.to_owned() }
}

#[test]
fn signup_returns_confirmation_for_valid_input() {
    let mut users = HashmapUserStore::default();
    let response = signup(&mut users, &signup_request("a@example.com", "password123", false))
        .unwrap();
    assert_eq!(response.message, "User a@example.com created successfully");
}

#[test]
fn signup_rejects_malformed_input() {
    let mut users = HashmapUserStore::default();
    let err = signup(&mut users, &signup_request("random_email", "password123", false))
        .unwrap_err();
    assert!(matches!(err, AuthAPIError::InvalidCredentials));
    assert_eq!(err.status_code(), 400);
    assert_eq!(err.message(), "Invalid credentials");

    let err = signup(&mut users, &signup_request("a@example.com", "short", false)).unwrap_err();
    assert!(matches!(err, AuthAPIError::InvalidCredentials));
}

#[test]
fn second_identical_signup_yields_user_already_exists() {
    let mut users = HashmapUserStore::default();
    signup(&mut users, &signup_request("a@example.com", "password123", false)).unwrap();
    let err = signup(&mut users, &signup_request("a@example.com", "password123", false))
        .unwrap_err();
    assert!(matches!(err, AuthAPIError::UserAlreadyExists));
    assert_eq!(err.status_code(), 409);
}

#[test]
fn signup_then_login_without_2fa_yields_cookie() {
    let mut users = HashmapUserStore::default();
    let mut challenges = HashmapTwoFACodeStore::default();
    signup(&mut users, &signup_request("a@example.com", "password123", false)).unwrap();

    let success = login(
        &users,
        &mut challenges,
        &MockEmailClient,
        &login_request("a@example.com", "password123"),
        SECRET,
        now(),
    )
    .unwrap();
    assert_eq!(success.status, 200);
    assert!(matches!(success.response, LoginResponse::RegularAuth));
    let cookie = success.cookie.expect("no auth cookie found");
    assert_eq!(cookie.name, "jwt");
    assert!(!cookie.value.is_empty());
    assert!(cookie.http_only);
    assert!(cookie.same_site_lax);
}

#[test]
fn login_with_wrong_password_is_incorrect_credentials() {
    let mut users = HashmapUserStore::default();
    let mut challenges = HashmapTwoFACodeStore::default();
    signup(&mut users, &signup_request("a@example.com", "password123", false)).unwrap();

    let err = login(
        &users,
        &mut challenges,
        &MockEmailClient,
        &login_request("a@example.com", "wrongpass"),
        SECRET,
        now(),
    )
    .unwrap_err();
    assert!(matches!(err, AuthAPIError::IncorrectCredentials));
    assert_eq!(err.status_code(), 401);
}

#[test]
fn login_with_unknown_email_is_user_not_found() {
    let users = HashmapUserStore::default();
    let mut challenges = HashmapTwoFACodeStore::default();
    let err = login(
        &users,
        &mut challenges,
        &MockEmailClient,
        &login_request("missing@example.com", "password123"),
        SECRET,
        now(),
    )
    .unwrap_err();
    assert!(matches!(err, AuthAPIError::UserNotFound));
    assert_eq!(err.status_code(), 404);
}

#[test]
fn login_with_malformed_input_is_invalid_credentials() {
    let users = HashmapUserStore::default();
    let mut challenges = HashmapTwoFACodeStore::default();
    let err = login(
        &users,
        &mut challenges,
        &MockEmailClient,
        &login_request("bad>user@example.com", "password123"),
        SECRET,
        now(),
    )
    .unwrap_err();
    assert!(matches!(err, AuthAPIError::InvalidCredentials));

    let err = login(
        &users,
        &mut challenges,
        &MockEmailClient,
        &login_request("a@example.com", "pass123"),
        SECRET,
        now(),
    )
    .unwrap_err();
    assert!(matches!(err, AuthAPIError::InvalidCredentials));
}

#[test]
fn login_with_2fa_yields_206_and_stored_challenge() {
    let mut users = HashmapUserStore::default();
    let mut challenges = HashmapTwoFACodeStore::default();
    signup(&mut users, &signup_request("a@example.com", "password123", true)).unwrap();

    let success = login(
        &users,
        &mut challenges,
        &MockEmailClient,
        &login_request("a@example.com", "password123"),
        SECRET,
        now(),
    )
    .unwrap();
    assert_eq!(success.status, 206);
    assert!(success.cookie.is_none());
    let payload = match success.response {
        LoginResponse::TwoFactorAuth(p) => p,
        LoginResponse::RegularAuth => panic!("expected a second-factor response"),
    };
    assert_eq!(payload.message, "2FA required");
    assert!(!payload.login_attempt_id.is_empty());

    let email = Email::parse("a@example.com".to_owned()).unwrap();
    let (stored_id, _stored_code) = challenges.get_code(&email).unwrap();
    assert_eq!(stored_id.as_str(), payload.login_attempt_id);
}

#[test]
fn completing_the_challenge_issues_a_session_and_consumes_it() {
    let mut users = HashmapUserStore::default();
    let mut challenges = HashmapTwoFACodeStore::default();
    signup(&mut users, &signup_request("a@example.com", "password123", true)).unwrap();
    let success = login(
        &users,
        &mut challenges,
        &MockEmailClient,
        &login_request("a@example.com", "password123"),
        SECRET,
        now(),
    )
    .unwrap();
    let payload = match success.response {
        LoginResponse::TwoFactorAuth(p) => p,
        LoginResponse::RegularAuth => panic!("expected a second-factor response"),
    };
    let email = Email::parse("a@example.com".to_owned()).unwrap();
    let (_, stored_code) = challenges.get_code(&email).unwrap();

    let request = Verify2FARequest {
        email: "a@example.com".to_owned(),
        login_attempt_id: payload.login_attempt_id,
        two_fa_code: stored_code.as_str().to_owned(),
    };
    let completed = verify_2fa(&mut challenges, &request, SECRET, now()).unwrap();
    assert_eq!(completed.status, 200);
    assert!(completed.cookie.is_some());

    // The challenge is consumed: a second completion attempt fails.
    let err = verify_2fa(&mut challenges, &request, SECRET, now()).unwrap_err();
    assert!(matches!(err, AuthAPIError::ChallengeNotFound));
}

#[test]
fn completing_with_wrong_code_is_incorrect_credentials() {
    let mut users = HashmapUserStore::default();
    let mut challenges = HashmapTwoFACodeStore::default();
    signup(&mut users, &signup_request("a@example.com", "password123", true)).unwrap();
    let success = login(
        &users,
        &mut challenges,
        &MockEmailClient,
        &login_request("a@example.com", "password123"),
        SECRET,
        now(),
    )
    .unwrap();
    let payload = match success.response {
        LoginResponse::TwoFactorAuth(p) => p,
        LoginResponse::RegularAuth => panic!("expected a second-factor response"),
    };
    let email = Email::parse("a@example.com".to_owned()).unwrap();
    let (_, stored_code) = challenges.get_code(&email).unwrap();
    let wrong_code = if stored_code.as_str() == "000000" { "000001" } else { "000000" };

    let request = Verify2FARequest {
        email: "a@example.com".to_owned(),
        login_attempt_id: payload.login_attempt_id,
        two_fa_code: wrong_code.to_owned(),
    };
    let err = verify_2fa(&mut challenges, &request, SECRET, now()).unwrap_err();
    assert!(matches!(err, AuthAPIError::IncorrectCredentials));
}

#[test]
fn completing_with_malformed_input_is_invalid_credentials() {
    let mut challenges = HashmapTwoFACodeStore::default();
    let request = Verify2FARequest {
        email: "invalid-email-format".to_owned(),
        login_attempt_id: "invalid-uuid-format".to_owned(),
        two_fa_code: "123".to_owned(),
    };
    let err = verify_2fa(&mut challenges, &request, SECRET, now()).unwrap_err();
    assert!(matches!(err, AuthAPIError::InvalidCredentials));
}

#[test]
fn logout_revokes_the_token_and_later_verification_fails() {
    let mut users = HashmapUserStore::default();
    let mut challenges = HashmapTwoFACodeStore::default();
    let mut banned = HashsetBannedTokenStore::default();
    signup(&mut users, &signup_request("a@example.com", "password123", false)).unwrap();
    let success = login(
        &users,
        &mut challenges,
        &MockEmailClient,
        &login_request("a@example.com", "password123"),
        SECRET,
        now(),
    )
    .unwrap();
    let token = success.cookie.expect("no auth cookie found").value;

    let fresh = VerifyTokenRequest { token: token.clone() };
    assert!(verify_token(&banned, &fresh, SECRET, now()).is_ok());

    logout(&mut banned, Some(&token), SECRET, now()).unwrap();

    let err = verify_token(&banned, &fresh, SECRET, now()).unwrap_err();
    assert!(matches!(err, AuthAPIError::InvalidToken));
    assert_eq!(err.status_code(), 401);
    assert_eq!(err.message(), "Invalid auth token");
}

#[test]
fn logout_without_cookie_is_missing_token() {
    let mut banned = HashsetBannedTokenStore::default();
    let err = logout(&mut banned, None, SECRET, now()).unwrap_err();
    assert!(matches!(err, AuthAPIError::MissingToken));
    assert_eq!(err.status_code(), 400);
    assert_eq!(err.message(), "Missing auth token");
}

#[test]
fn logout_twice_in_a_row_fails_the_second_time() {
    let mut users = HashmapUserStore::default();
    let mut challenges = HashmapTwoFACodeStore::default();
    let mut banned = HashsetBannedTokenStore::default();
    signup(&mut users, &signup_request("a@example.com", "password123", false)).unwrap();
    let success = login(
        &users,
        &mut challenges,
        &MockEmailClient,
        &login_request("a@example.com", "password123"),
        SECRET,
        now(),
    )
    .unwrap();
    let token = success.cookie.expect("no auth cookie found").value;

    logout(&mut banned, Some(&token), SECRET, now()).unwrap();
    let err = logout(&mut banned, Some(&token), SECRET, now()).unwrap_err();
    assert!(matches!(err, AuthAPIError::InvalidToken));
}

#[test]
fn logout_with_garbage_token_is_invalid_token() {
    let mut banned = HashsetBannedTokenStore::default();
    let token = "invalid".to_owned();
    let err = logout(&mut banned, Some(&token), SECRET, now()).unwrap_err();
    assert!(matches!(err, AuthAPIError::InvalidToken));
}

#[test]
fn verify_token_rejects_garbage() {
    let banned = HashsetBannedTokenStore::default();
    let request = VerifyTokenRequest { token: "invalid_token".to_owned() };
    let err = verify_token(&banned, &request, SECRET, now()).unwrap_err();
    assert!(matches!(err, AuthAPIError::InvalidToken));
}
