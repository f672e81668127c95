use auth_service::data_stores::{LoginAttemptId, TwoFACode};

#[test]
fn login_attempt_id_accepts_canonical_form() {
    let id = LoginAttemptId::parse("0f8fad5b-d9cb-469f-a165-70867728950e".to_owned()).unwrap();
    assert_eq!(id.as_str(), "0f8fad5b-d9cb-469f-a165-70867728950e");
}

#[test]
fn login_attempt_id_rejects_malformed_text() {
    assert!(LoginAttemptId::parse("invalid-uuid-format".to_owned()).is_err());
    assert!(LoginAttemptId::parse("".to_owned()).is_err());
    assert!(LoginAttemptId::parse("0f8fad5bxd9cb-469f-a165-70867728950e".to_owned()).is_err());
}

#[test]
fn generated_login_attempt_id_parses_back() {
    let id = LoginAttemptId::default();
    let text = id.as_str().to_owned();
    let reparsed = LoginAttemptId::parse(text).unwrap();
    assert!(reparsed == id);
}

#[test]
fn two_fa_code_accepts_six_digits() {
    let code = TwoFACode::parse("123456".to_owned()).unwrap();
    assert_eq!(code.as_str(), "123456");
}

#[test]
fn two_fa_code_trims_surrounding_whitespace() {
    let code = TwoFACode::parse(" 123456\n".to_owned()).unwrap();
    assert_eq!(code.as_str(), "123456");
}

#[test]
fn two_fa_code_rejects_wrong_shapes() {
    assert!(TwoFACode::parse("123".to_owned()).is_err());
    assert!(TwoFACode::parse("1234567".to_owned()).is_err());
    assert!(TwoFACode::parse("12a456".to_owned()).is_err());
    assert!(TwoFACode::parse("".to_owned()).is_err());
}

#[test]
fn generated_two_fa_code_is_six_digits() {
    let code = TwoFACode::default();
    let text = code.as_str();
    assert_eq!(text.len(), 6);
    assert!(text.chars().all(|c| c.is_ascii_digit()));
}
