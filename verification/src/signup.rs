//! The signup operation: register a new account.

use vstd::prelude::*;

use crate::data_stores::UserStore;
use crate::email::{valid_email, Email};
use crate::error::AuthAPIError;
use crate::hashing::{argon2_verifies, compute_password_hash, parses_as_password_hash,
    MAX_HASHABLE_PASSWORD_CHARS};
use crate::password::{valid_password, Password};
use crate::user::{User, UserView};

verus! {

/// A decoded signup request.
pub struct SignupRequest {
    pub email: String,
    pub password: String,
    pub requires_2fa: bool,
}

/// The confirmation payload of a successful signup.
#[derive(Debug)]
pub struct SignupResponse {
    pub message: String,
}

/// The confirmation message for a new account.
pub open spec fn spec_signup_message(email: Seq<char>) -> Seq<char> {
    "User "@ + email + " created successfully"@
}

/// Whether both credential fields of a signup request are well-formed.
pub open spec fn signup_input_valid(request: &SignupRequest) -> bool {
    valid_email(request.email@) && valid_password(request.password@)
}

/// Whether `post` extends `pre` with exactly the requested record, stored
/// under the hash text `h`, and `h` verifies against the requested
/// password.
pub open spec fn signup_stored_with_hash(
    pre: Map<Seq<char>, UserView>,
    post: Map<Seq<char>, UserView>,
    request: &SignupRequest,
    h: Seq<char>,
) -> bool {
    &&& parses_as_password_hash(h)
    &&& argon2_verifies(h, request.password@)
    &&& post == pre.insert(
        request.email@,
        UserView { email: request.email@, password_hash: h, requires_2fa: request.requires_2fa },
    )
}

/// Registers a new account: parse the credentials, refuse an address that
/// is already registered, hash the password, and store the record.  For a
/// fresh valid address with a password within the hashing subsystem's size
/// bound, success is promised, and the stored record carries a hash that
/// verifies against the given password.
pub fn signup<U: UserStore>(user_store: &mut U, request: &SignupRequest) -> (r: Result<
    SignupResponse,
    AuthAPIError,
>)
    ensures
        !signup_input_valid(request) ==> (r matches Err(e) && e == AuthAPIError::InvalidCredentials
            && final(user_store).users() == old(user_store).users()),
        signup_input_valid(request) && old(user_store).users().contains_key(request.email@) ==> (
        r matches Err(e) && e == AuthAPIError::UserAlreadyExists && final(user_store).users()
            == old(user_store).users()),
        signup_input_valid(request) && !old(user_store).users().contains_key(request.email@) ==> ((
        r matches Ok(resp) && resp.message@ == spec_signup_message(request.email@) && (exists|
            h: Seq<char>,
        |
            signup_stored_with_hash(
                old(user_store).users(),
                final(user_store).users(),
                request,
                h,
            ))) || (r matches Err(e) && (e matches AuthAPIError::UnexpectedError(_))
            && final(user_store).users() == old(user_store).users())),
        signup_input_valid(request) && !old(user_store).users().contains_key(request.email@)
            && request.password@.len() <= MAX_HASHABLE_PASSWORD_CHARS ==> r is Ok,
        r matches Err(e) ==> match e {
            AuthAPIError::InvalidCredentials => !signup_input_valid(request),
            AuthAPIError::UserAlreadyExists => signup_input_valid(request)
                && old(user_store).users().contains_key(request.email@),
            AuthAPIError::UnexpectedError(_) => signup_input_valid(request)
                && !old(user_store).users().contains_key(request.email@)
                && request.password@.len() > MAX_HASHABLE_PASSWORD_CHARS,
            _ => false,
        },
{
    let email = match Email::parse(request.email.clone()) {
        Ok(e) => e,
        Err(_) => {
            return Err(AuthAPIError::InvalidCredentials);
        },
    };
    let password = match Password::parse(request.password.clone()) {
        Ok(p) => p,
        Err(_) => {
            return Err(AuthAPIError::InvalidCredentials);
        },
    };
    if user_store.get_user(&email).is_ok() {
        return Err(AuthAPIError::UserAlreadyExists);
    }
    let password_hash = match compute_password_hash(&password) {
        Ok(h) => h,
        Err(_) => {
            return Err(AuthAPIError::UnexpectedError(String::from_str("password hashing failed")));
        },
    };
    let ghost hash_text = password_hash@;
    let mut message: String = String::from_str("User ");
    vstd::string::StringExecFns::append(&mut message, email.as_str());
    vstd::string::StringExecFns::append(&mut message, " created successfully");
    let user = User::new(email, password_hash, request.requires_2fa);
    match user_store.add_user(user) {
        Ok(()) => {
            proof {
                assert(signup_stored_with_hash(
                    old(user_store).users(),
                    final(user_store).users(),
                    request,
                    hash_text,
                ));
            }
            Ok(SignupResponse { message })
        },
        Err(_) => Err(
            AuthAPIError::UnexpectedError(String::from_str("failed to store the new account")),
        ),
    }
}

} // verus!
