//! The login operation: check credentials, then either issue a session or
//! open a second-factor challenge.

use vstd::prelude::*;

use crate::auth::{generate_auth_cookie, jwt_of, AuthCookie, TOKEN_TTL_SECONDS};
use crate::data_stores::{is_six_digit_code, valid_uuid, LoginAttemptId, TwoFACode, TwoFACodeStore,
    UserStore, UserStoreError};
use crate::email::{valid_email, Email};
use crate::email_client::EmailClient;
use crate::error::AuthAPIError;
use crate::hashing::{argon2_verifies, parses_as_password_hash};
use crate::password::{valid_password, Password};
use crate::user::User;

verus! {

/// A decoded login request.
pub struct LoginRequest {
    pub email: String,
    pub password: String,
}

/// The payload of a login that must still complete a second factor: it
/// carries the challenge identifier and never the code.
#[derive(Debug)]
pub struct TwoFactorAuthResponse {
    pub message: String,
    pub login_attempt_id: String,
}

/// The two success payloads of a login.
#[derive(Debug)]
pub enum LoginResponse {
    /// Credentials sufficed; the session cookie accompanies the response.
    RegularAuth,
    /// A second factor is still owed.
    TwoFactorAuth(TwoFactorAuthResponse),
}

/// The outcome of a successful login step: the status code, the payload,
/// and the session cookie when one was issued.
#[derive(Debug)]
pub struct LoginSuccess {
    pub status: u16,
    pub cookie: Option<AuthCookie>,
    pub response: LoginResponse,
}

/// Whether both credential fields of a login request are well-formed.
pub open spec fn login_input_valid(request: &LoginRequest) -> bool {
    valid_email(request.email@) && valid_password(request.password@)
}

/// Whether the stored record for the request's address has a well-formed
/// hash that verifies against the request's password.
pub open spec fn login_credentials_match<U: UserStore>(
    user_store: &U,
    request: &LoginRequest,
) -> bool {
    &&& user_store.users().contains_key(request.email@)
    &&& parses_as_password_hash(user_store.users()[request.email@].password_hash)
    &&& argon2_verifies(user_store.users()[request.email@].password_hash, request.password@)
}

/// Law: a store state produced by a successful signup satisfies exactly
/// the credential match under which login promises success, so signing up
/// and then logging in with the same address and password reaches the
/// success branch of [`login`].
pub proof fn lemma_signup_enables_login(
    pre: Map<Seq<char>, crate::user::UserView>,
    post: Map<Seq<char>, crate::user::UserView>,
    signup_request: &crate::signup::SignupRequest,
    h: Seq<char>,
    login_request: &LoginRequest,
)
    requires
        crate::signup::signup_stored_with_hash(pre, post, signup_request, h),
        login_request.email@ == signup_request.email@,
        login_request.password@ == signup_request.password@,
    ensures
        post.contains_key(login_request.email@),
        parses_as_password_hash(post[login_request.email@].password_hash),
        argon2_verifies(post[login_request.email@].password_hash, login_request.password@),
        post[login_request.email@].requires_2fa == signup_request.requires_2fa,
{
}

/// Logs an account in.  After the password check the outcome depends on
/// the account's second-factor flag: without it a session cookie is issued
/// at once; with it a fresh challenge is stored and its code is dispatched,
/// and only the challenge identifier is returned.
pub fn login<U: UserStore, T: TwoFACodeStore, E: EmailClient>(
    user_store: &U,
    two_fa_code_store: &mut T,
    email_client: &E,
    request: &LoginRequest,
    secret: &str,
    now: u64,
) -> (r: Result<LoginSuccess, AuthAPIError>)
    ensures
        !login_input_valid(request) ==> (r matches Err(e) && e == AuthAPIError::InvalidCredentials
            && final(two_fa_code_store).codes() == old(two_fa_code_store).codes()),
        login_input_valid(request) && !user_store.users().contains_key(request.email@) ==> (
        r matches Err(e) && e == AuthAPIError::UserNotFound && final(two_fa_code_store).codes()
            == old(two_fa_code_store).codes()),
        login_input_valid(request) && user_store.users().contains_key(request.email@)
            && parses_as_password_hash(user_store.users()[request.email@].password_hash)
            && !argon2_verifies(user_store.users()[request.email@].password_hash, request.password@)
            ==> (r matches Err(e) && e == AuthAPIError::IncorrectCredentials && final(two_fa_code_store).codes() == old(two_fa_code_store).codes()),
        login_input_valid(request) && user_store.users().contains_key(request.email@)
            && !parses_as_password_hash(user_store.users()[request.email@].password_hash) ==> (
        r matches Err(e) && (e matches AuthAPIError::UnexpectedError(_)) && final(two_fa_code_store).codes() == old(two_fa_code_store).codes()),
        login_input_valid(request) && login_credentials_match(user_store, request) && !user_store
            .users()[request.email@].requires_2fa && now + TOKEN_TTL_SECONDS <= u64::MAX ==> (
        r matches Ok(s) && s.status == 200 && (s.response matches LoginResponse::RegularAuth) && (
        s.cookie matches Some(c) && c.value@ == jwt_of(
            request.email@,
            (now + TOKEN_TTL_SECONDS) as u64,
            secret@,
        ) && c.value@.len() > 0 && c.name@ == "jwt"@) && final(two_fa_code_store).codes() == old(two_fa_code_store).codes()),
        login_input_valid(request) && login_credentials_match(user_store, request) && user_store
            .users()[request.email@].requires_2fa ==> (exists|id: Seq<char>, code: Seq<char>|
            #![trigger old(two_fa_code_store).codes().insert(request.email@, (id, code))]
            valid_uuid(id) && is_six_digit_code(code) && final(two_fa_code_store).codes() == old(two_fa_code_store).codes().insert(request.email@, (id, code))),
        login_input_valid(request) && login_credentials_match(user_store, request) && user_store
            .users()[request.email@].requires_2fa ==> ((r matches Ok(s) && s.status == 206 && (
        s.cookie is None) && (s.response matches LoginResponse::TwoFactorAuth(t) && t.message@
            == "2FA required"@ && valid_uuid(t.login_attempt_id@) && final(two_fa_code_store).codes().contains_key(request.email@) && final(two_fa_code_store).codes()[request.email@].0
            == t.login_attempt_id@)) || (r matches Err(e) && (e
            matches AuthAPIError::UnexpectedError(_)))),
        r matches Err(e) ==> match e {
            AuthAPIError::InvalidCredentials => !login_input_valid(request),
            AuthAPIError::UserNotFound => login_input_valid(request) && !user_store
                .users().contains_key(request.email@),
            AuthAPIError::IncorrectCredentials => login_input_valid(request) && user_store
                .users().contains_key(request.email@) && parses_as_password_hash(
                user_store.users()[request.email@].password_hash,
            ) && !argon2_verifies(
                user_store.users()[request.email@].password_hash,
                request.password@,
            ),
            AuthAPIError::UnexpectedError(_) => login_input_valid(request) && user_store
                .users().contains_key(request.email@) && (!parses_as_password_hash(
                user_store.users()[request.email@].password_hash,
            ) || (login_credentials_match(user_store, request) && (user_store
                .users()[request.email@].requires_2fa || now + TOKEN_TTL_SECONDS > u64::MAX))),
            _ => false,
        },
{
    let email = match Email::parse(request.email.clone()) {
        Ok(e) => e,
        Err(_) => {
            return Err(AuthAPIError::InvalidCredentials);
        },
    };
    let password = match Password::parse(request.password.clone()) {
        Ok(p) => p,
        Err(_) => {
            return Err(AuthAPIError::InvalidCredentials);
        },
    };
    match user_store.validate_user(&email, &password) {
        Ok(()) => {},
        Err(UserStoreError::UserNotFound) => {
            return Err(AuthAPIError::UserNotFound);
        },
        Err(UserStoreError::IncorrectCredentials) => {
            return Err(AuthAPIError::IncorrectCredentials);
        },
        Err(_) => {
            return Err(AuthAPIError::UnexpectedError(
                String::from_str("user validation failed"),
            ));
        },
    }
    let user: User = match user_store.get_user(&email) {
        Ok(u) => u,
        Err(_) => {
            return Err(AuthAPIError::IncorrectCredentials);
        },
    };
    if user.requires_2fa {
        handle_2fa(&email, two_fa_code_store, email_client)
    } else {
        handle_no_2fa(&email, secret, now)
    }
}

/// Opens a second-factor challenge: store a fresh identifier and code for
/// the address, dispatch the code, and answer with the identifier only.
/// The stored challenge stays behind even when dispatch fails.
fn handle_2fa<T: TwoFACodeStore, E: EmailClient>(
    email: &Email,
    two_fa_code_store: &mut T,
    email_client: &E,
) -> (r: Result<LoginSuccess, AuthAPIError>)
    ensures
        exists|id: Seq<char>, code: Seq<char>|
            #![trigger old(two_fa_code_store).codes().insert(email@, (id, code))]
            valid_uuid(id) && is_six_digit_code(code) && final(two_fa_code_store).codes() == old(two_fa_code_store).codes().insert(email@, (id, code)),
        r matches Ok(s) ==> s.status == 206 && (s.cookie is None) && (s.response
            matches LoginResponse::TwoFactorAuth(t) && t.message@ == "2FA required"@ && valid_uuid(
            t.login_attempt_id@,
        ) && final(two_fa_code_store).codes().contains_key(email@) && final(two_fa_code_store).codes()[email@].0 == t.login_attempt_id@),
        r matches Err(e) ==> (e matches AuthAPIError::UnexpectedError(_)),
{
    let login_attempt_id = LoginAttemptId::default();
    let two_fa_code = TwoFACode::default();
    match two_fa_code_store.add_code(
        email.clone(),
        login_attempt_id.clone(),
        two_fa_code.clone(),
    ) {
        Ok(()) => {},
        Err(_) => {
            return Err(AuthAPIError::UnexpectedError(
                String::from_str("failed to store the challenge"),
            ));
        },
    }
    proof {
        assert(valid_uuid(login_attempt_id@) && is_six_digit_code(two_fa_code@) && final(two_fa_code_store).codes() == old(two_fa_code_store).codes().insert(
            email@,
            (login_attempt_id@, two_fa_code@),
        ));
    }
    match email_client.send_email(email, "2FA Code", two_fa_code.as_str()) {
        Ok(()) => {},
        Err(_) => {
            return Err(AuthAPIError::UnexpectedError(
                String::from_str("failed to dispatch the challenge code"),
            ));
        },
    }
    let response = TwoFactorAuthResponse {
        message: String::from_str("2FA required"),
        login_attempt_id: String::from_str(login_attempt_id.as_str()),
    };
    Ok(
        LoginSuccess {
            status: 206,
            cookie: None,
            response: LoginResponse::TwoFactorAuth(response),
        },
    )
}

/// Issues the session for an account without a second factor.
fn handle_no_2fa(email: &Email, secret: &str, now: u64) -> (r: Result<LoginSuccess, AuthAPIError>)
    ensures
        now + TOKEN_TTL_SECONDS <= u64::MAX ==> (r matches Ok(s) && s.status == 200 && (s.response
            matches LoginResponse::RegularAuth) && (s.cookie matches Some(c) && c.value@ == jwt_of(
            email@,
            (now + TOKEN_TTL_SECONDS) as u64,
            secret@,
        ) && c.value@.len() > 0 && c.name@ == "jwt"@)),
        r matches Err(e) ==> (e matches AuthAPIError::UnexpectedError(_)),
{
    let auth_cookie = match generate_auth_cookie(email, secret, now) {
        Ok(c) => c,
        Err(_) => {
            return Err(AuthAPIError::UnexpectedError(String::from_str("failed to issue a token")));
        },
    };
    Ok(
        LoginSuccess {
            status: 200,
            cookie: Some(auth_cookie),
            response: LoginResponse::RegularAuth,
        },
    )
}

} // verus!
