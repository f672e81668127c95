//! The protocol-level error taxonomy and its rendering rules.
//!
//! Store- and crypto-layer failures are translated into these kinds at the
//! protocol boundary; nothing below the protocol layer is surfaced raw.
//! Every kind maps to a fixed status code and message, and no message ever
//! carries secret material.

use vstd::prelude::*;

verus! {

/// An error of the authentication protocol.
#[derive(Debug)]
pub enum AuthAPIError {
    /// Signup for an address that is already registered.
    UserAlreadyExists,
    /// Login for an address that is not registered.
    UserNotFound,
    /// Malformed email, password, identifier or code syntax.
    InvalidCredentials,
    /// The right account, but the wrong secret or code.
    IncorrectCredentials,
    /// The pending second-factor challenge was not found.
    ChallengeNotFound,
    /// Logout without a session cookie.
    MissingToken,
    /// A revoked, expired, malformed or unsigned session token.
    InvalidToken,
    /// Revocation was asked for a token that is already revoked.
    TokenAlreadyBanned,
    /// Revocation itself failed.
    TokenBanFailed,
    /// An internal failure, with a diagnostic cause for logging only.
    UnexpectedError(String),
}

impl AuthAPIError {
    /// The status code this error renders to.
    pub open spec fn spec_status_code(&self) -> u16 {
        match self {
            AuthAPIError::UserAlreadyExists => 409,
            AuthAPIError::UserNotFound => 404,
            AuthAPIError::InvalidCredentials => 400,
            AuthAPIError::IncorrectCredentials => 401,
            AuthAPIError::ChallengeNotFound => 404,
            AuthAPIError::MissingToken => 400,
            AuthAPIError::InvalidToken => 401,
            AuthAPIError::TokenAlreadyBanned => 409,
            AuthAPIError::TokenBanFailed => 422,
            AuthAPIError::UnexpectedError(_) => 500,
        }
    }

    /// The message this error renders to.  Never includes secret material;
    /// the diagnostic cause of an unexpected error is for logging only and
    /// is not part of the rendered message.
    pub open spec fn spec_message(&self) -> Seq<char> {
        match self {
            AuthAPIError::UserAlreadyExists => "User already exists"@,
            AuthAPIError::UserNotFound => "User not found"@,
            AuthAPIError::InvalidCredentials => "Invalid credentials"@,
            AuthAPIError::IncorrectCredentials => "Incorrect credentials"@,
            AuthAPIError::ChallengeNotFound => "Challenge not found"@,
            AuthAPIError::MissingToken => "Missing auth token"@,
            AuthAPIError::InvalidToken => "Invalid auth token"@,
            AuthAPIError::TokenAlreadyBanned => "Token already banned"@,
            AuthAPIError::TokenBanFailed => "Failed to ban token"@,
            AuthAPIError::UnexpectedError(_) => "Unexpected error"@,
        }
    }

    /// The status code this error renders to.
    pub fn status_code(&self) -> (s: u16)
        ensures
            s == self.spec_status_code(),
    {
        match self {
            AuthAPIError::UserAlreadyExists => 409,
            AuthAPIError::UserNotFound => 404,
            AuthAPIError::InvalidCredentials => 400,
            AuthAPIError::IncorrectCredentials => 401,
            AuthAPIError::ChallengeNotFound => 404,
            AuthAPIError::MissingToken => 400,
            AuthAPIError::InvalidToken => 401,
            AuthAPIError::TokenAlreadyBanned => 409,
            AuthAPIError::TokenBanFailed => 422,
            AuthAPIError::UnexpectedError(_) => 500,
        }
    }

    /// The message this error renders to.
    pub fn message(&self) -> (m: String)
        ensures
            m@ == self.spec_message(),
    {
        match self {
            AuthAPIError::UserAlreadyExists => String::from_str("User already exists"),
            AuthAPIError::UserNotFound => String::from_str("User not found"),
            AuthAPIError::InvalidCredentials => String::from_str("Invalid credentials"),
            AuthAPIError::IncorrectCredentials => String::from_str("Incorrect credentials"),
            AuthAPIError::ChallengeNotFound => String::from_str("Challenge not found"),
            AuthAPIError::MissingToken => String::from_str("Missing auth token"),
            AuthAPIError::InvalidToken => String::from_str("Invalid auth token"),
            AuthAPIError::TokenAlreadyBanned => String::from_str("Token already banned"),
            AuthAPIError::TokenBanFailed => String::from_str("Failed to ban token"),
            AuthAPIError::UnexpectedError(_) => String::from_str("Unexpected error"),
        }
    }
}

/// The body rendered for any protocol error.
#[derive(Debug)]
pub struct ErrorResponse {
    pub error: String,
}

/// The text of the "caused by" entries of a diagnostic report, one per
/// underlying cause.
pub open spec fn spec_causes_part(causes: Seq<String>) -> Seq<char>
    decreases causes.len(),
{
    if causes.len() == 0 {
        Seq::empty()
    } else {
        spec_causes_part(causes.drop_last()) + "\nCaused by:\n\n"@ + causes.last()@
    }
}

/// The full diagnostic report for an error and its chain of causes.
pub open spec fn spec_error_chain_report(error: Seq<char>, causes: Seq<String>) -> Seq<char> {
    error_report_separator() + error + "\n"@ + spec_causes_part(causes) + "\n"@
        + error_report_separator()
}

/// The horizontal rule that frames a diagnostic report.
pub open spec fn error_report_separator() -> Seq<char> {
    "\n-----------------------------------------------------------------------------------\n"@
}

/// Builds the diagnostic report for an error and the messages of its chain
/// of underlying causes.  Emitting the report is the caller's concern.
pub fn log_error_chain(error: &String, causes: &Vec<String>) -> (r: String)
    ensures
        r@ == spec_error_chain_report(error@, causes@),
{
    let mut report: String = String::from_str(
        "\n-----------------------------------------------------------------------------------\n",
    );
    vstd::string::StringExecFns::append(&mut report, error.as_str());
    vstd::string::StringExecFns::append(&mut report, "\n");
    let n = causes.len();
    let mut i: usize = 0;
    while i < n
        invariant
            i <= n,
            n == causes@.len(),
            report@ == error_report_separator() + error@ + "\n"@ + spec_causes_part(
                causes@.subrange(0, i as int),
            ),
        decreases n - i,
    {
        proof {
            assert(causes@.subrange(0, i as int + 1).drop_last() =~= causes@.subrange(
                0,
                i as int,
            ));
        }
        vstd::string::StringExecFns::append(&mut report, "\nCaused by:\n\n");
        vstd::string::StringExecFns::append(&mut report, causes[i].as_str());
        i = i + 1;
    }
    proof {
        assert(causes@.subrange(0, n as int) =~= causes@);
    }
    vstd::string::StringExecFns::append(&mut report, "\n");
    vstd::string::StringExecFns::append(
        &mut report,
        "\n-----------------------------------------------------------------------------------\n",
    );
    report
}

} // verus!
