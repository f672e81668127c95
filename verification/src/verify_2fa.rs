//! The challenge-completion operation: finish a login that required a
//! second factor.

use vstd::prelude::*;

use crate::auth::{generate_auth_cookie, jwt_of, TOKEN_TTL_SECONDS};
use crate::data_stores::{is_six_digit_code, valid_uuid, LoginAttemptId, TwoFACode, TwoFACodeStore};
use crate::email::{valid_email, Email};
use crate::error::AuthAPIError;
use crate::login::{LoginResponse, LoginSuccess};
use crate::text::trim_spec;

verus! {

/// A decoded challenge-completion request.
pub struct Verify2FARequest {
    pub email: String,
    pub login_attempt_id: String,
    pub two_fa_code: String,
}

/// Whether all three fields of a challenge-completion request are
/// well-formed.
pub open spec fn verify_2fa_input_valid(request: &Verify2FARequest) -> bool {
    &&& valid_email(request.email@)
    &&& valid_uuid(request.login_attempt_id@)
    &&& is_six_digit_code(trim_spec(request.two_fa_code@))
}

/// Whether the supplied identifier and (trimmed) code are exactly the
/// stored pending challenge for the address.
pub open spec fn challenge_matches<T: TwoFACodeStore>(
    two_fa_code_store: &T,
    request: &Verify2FARequest,
) -> bool {
    &&& two_fa_code_store.codes().contains_key(request.email@)
    &&& two_fa_code_store.codes()[request.email@].0 == request.login_attempt_id@
    &&& two_fa_code_store.codes()[request.email@].1 == trim_spec(request.two_fa_code@)
}

/// Completes a pending second-factor challenge: the supplied identifier
/// and code must both equal the stored pair for the address.  On success
/// the challenge is consumed and a session cookie is issued.
pub fn verify_2fa<T: TwoFACodeStore>(
    two_fa_code_store: &mut T,
    request: &Verify2FARequest,
    secret: &str,
    now: u64,
) -> (r: Result<LoginSuccess, AuthAPIError>)
    ensures
        !verify_2fa_input_valid(request) ==> (r matches Err(e) && e
            == AuthAPIError::InvalidCredentials && final(two_fa_code_store).codes() == old(two_fa_code_store).codes()),
        verify_2fa_input_valid(request) && !old(two_fa_code_store).codes().contains_key(
            request.email@,
        ) ==> (r matches Err(e) && e == AuthAPIError::ChallengeNotFound && final(two_fa_code_store).codes() == old(two_fa_code_store).codes()),
        verify_2fa_input_valid(request) && old(two_fa_code_store).codes().contains_key(
            request.email@,
        ) && !challenge_matches(old(two_fa_code_store), request) ==> (r matches Err(e) && e
            == AuthAPIError::IncorrectCredentials && final(two_fa_code_store).codes() == old(two_fa_code_store).codes()),
        verify_2fa_input_valid(request) && challenge_matches(old(two_fa_code_store), request) && now
            + TOKEN_TTL_SECONDS <= u64::MAX ==> (r matches Ok(s) && s.status == 200 && (s.response
            matches LoginResponse::RegularAuth) && (s.cookie matches Some(c) && c.value@ == jwt_of(
            request.email@,
            (now + TOKEN_TTL_SECONDS) as u64,
            secret@,
        ) && c.value@.len() > 0 && c.name@ == "jwt"@) && final(two_fa_code_store).codes() == old(two_fa_code_store).codes().remove(request.email@)),
        r matches Err(e) ==> match e {
            AuthAPIError::InvalidCredentials => !verify_2fa_input_valid(request),
            AuthAPIError::ChallengeNotFound => verify_2fa_input_valid(request) && !old(two_fa_code_store).codes().contains_key(request.email@),
            AuthAPIError::IncorrectCredentials => verify_2fa_input_valid(request) && old(two_fa_code_store).codes().contains_key(request.email@) && !challenge_matches(
                old(two_fa_code_store),
                request,
            ),
            AuthAPIError::UnexpectedError(_) => verify_2fa_input_valid(request)
                && challenge_matches(old(two_fa_code_store), request),
            _ => false,
        },
{
    let email = match Email::parse(request.email.clone()) {
        Ok(e) => e,
        Err(_) => {
            return Err(AuthAPIError::InvalidCredentials);
        },
    };
    let login_attempt_id = match LoginAttemptId::parse(request.login_attempt_id.clone()) {
        Ok(i) => i,
        Err(_) => {
            return Err(AuthAPIError::InvalidCredentials);
        },
    };
    let two_fa_code = match TwoFACode::parse(request.two_fa_code.clone()) {
        Ok(c) => c,
        Err(_) => {
            return Err(AuthAPIError::InvalidCredentials);
        },
    };
    let (stored_id, stored_code) = match two_fa_code_store.get_code(&email) {
        Ok(p) => p,
        Err(_) => {
            return Err(AuthAPIError::ChallengeNotFound);
        },
    };
    if !(stored_id == login_attempt_id && stored_code == two_fa_code) {
        return Err(AuthAPIError::IncorrectCredentials);
    }
    match two_fa_code_store.remove_code(&email) {
        Ok(()) => {},
        Err(_) => {
            return Err(AuthAPIError::UnexpectedError(
                String::from_str("failed to consume the challenge"),
            ));
        },
    }
    let auth_cookie = match generate_auth_cookie(&email, secret, now) {
        Ok(c) => c,
        Err(_) => {
            return Err(AuthAPIError::UnexpectedError(String::from_str("failed to issue a token")));
        },
    };
    Ok(
        LoginSuccess {
            status: 200,
            cookie: Some(auth_cookie),
            response: LoginResponse::RegularAuth,
        },
    )
}

} // verus!
