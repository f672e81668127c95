use auth_service::error::{log_error_chain, AuthAPIError};
use auth_service::hashmap_two_fa_code_store::get_key as two_fa_key;
use auth_service::hashset_banned_token_store::get_key as banned_token_key;
use auth_service::email::Email;

#[test]
fn every_error_kind_has_its_status_and_message() {
    let cases: Vec<(AuthAPIError, u16, &str)> = vec![
        (AuthAPIError::UserAlreadyExists, 409, "User already exists"),
        (AuthAPIError::UserNotFound, 404, "User not found"),
        (AuthAPIError::InvalidCredentials, 400, "Invalid credentials"),
        (AuthAPIError::IncorrectCredentials, 401, "Incorrect credentials"),
        (AuthAPIError::ChallengeNotFound, 404, "Challenge not found"),
        (AuthAPIError::MissingToken, 400, "Missing auth token"),
        (AuthAPIError::InvalidToken, 401, "Invalid auth token"),
        (AuthAPIError::TokenAlreadyBanned, 409, "Token already banned"),
        (AuthAPIError::TokenBanFailed, 422, "Failed to ban token"),
        (AuthAPIError::UnexpectedError("cause".to_owned()), 500, "Unexpected error"),
    ];
    for (error, status, message) in cases {
        assert_eq!(error.status_code(), status);
        assert_eq!(error.message(), message);
    }
}

#[test]
fn unexpected_error_message_hides_the_cause() {
    let error = AuthAPIError::UnexpectedError("secret diagnostic".to_owned());
    assert!(!error.message().contains("secret diagnostic"));
}

#[test]
fn error_chain_report_lists_every_cause() {
    let separator =
        "\n-----------------------------------------------------------------------------------\n";
    let report = log_error_chain(
        &"top level failure".to_owned(),
        &vec!["first cause".to_owned(), "second cause".to_owned()],
    );
    let expected = format!(
        "{}top level failure\n\nCaused by:\n\nfirst cause\nCaused by:\n\nsecond cause\n{}",
        separator, separator
    );
    assert_eq!(report, expected);
}

#[test]
fn storage_keys_carry_their_prefixes() {
    assert_eq!(banned_token_key("abc"), "banned_token:abc");
    let email = Email::parse("a@example.com".to_owned()).unwrap();
    assert_eq!(two_fa_key(&email), "two_fa_code:a@example.com");
}
