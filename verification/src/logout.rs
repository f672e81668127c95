//! The logout operation: revoke the presented session token.

use vstd::prelude::*;

use crate::auth::{jwt_of, validate_token};
use crate::data_stores::BannedTokenStore;
use crate::error::AuthAPIError;

verus! {

/// Law: the revocation a successful logout performs is visible to token
/// verification: the token joins the revoked set, and both
/// [`crate::auth::validate_token`] and [`crate::verify_token::verify_token`]
/// reject every member of that set.
pub proof fn lemma_revoked_token_stays_revoked(tokens: Set<Seq<char>>, token: Seq<char>)
    ensures
        tokens.insert(token).contains(token),
        forall|other: Seq<char>|
            tokens.contains(other) ==> #[trigger] tokens.insert(token).contains(other),
{
}

/// Ends a session: the session cookie must be present and its token must
/// still verify; the token is then revoked, so later verification rejects
/// it.  Stripping the cookie from the response is the transport's concern.
pub fn logout<B: BannedTokenStore>(
    banned_token_store: &mut B,
    cookie_token: Option<&String>,
    secret: &str,
    now: u64,
) -> (r: Result<(), AuthAPIError>)
    ensures
        cookie_token is None ==> (r matches Err(e) && e == AuthAPIError::MissingToken && final(banned_token_store).tokens() == old(banned_token_store).tokens()),
        (cookie_token matches Some(t) && old(banned_token_store).tokens().contains(t@)) ==> (
        r matches Err(e) && e == AuthAPIError::InvalidToken && final(banned_token_store).tokens()
            == old(banned_token_store).tokens()),
        r matches Ok(_) ==> (cookie_token matches Some(t) && final(banned_token_store).tokens()
            == old(banned_token_store).tokens().insert(t@) && !old(banned_token_store).tokens().contains(t@)),
        forall|s: Seq<char>, e: u64|
            #![trigger jwt_of(s, e, secret@)]
            (cookie_token matches Some(t) && t@ == jwt_of(s, e, secret@) && !old(banned_token_store).tokens().contains(t@) && e > now) ==> r matches Ok(_),
        forall|s: Seq<char>, e: u64|
            #![trigger jwt_of(s, e, secret@)]
            (cookie_token matches Some(t) && t@ == jwt_of(s, e, secret@) && e <= now) ==> (
            r matches Err(err) && err == AuthAPIError::InvalidToken),
        r matches Err(e) ==> final(banned_token_store).tokens() == old(banned_token_store).tokens() && (e == AuthAPIError::MissingToken || e == AuthAPIError::InvalidToken || e
            == AuthAPIError::TokenBanFailed),
{
    let token = match cookie_token {
        Some(t) => t,
        None => {
            return Err(AuthAPIError::MissingToken);
        },
    };
    match validate_token(banned_token_store, token.as_str(), secret, now) {
        Ok(_) => {},
        Err(_) => {
            return Err(AuthAPIError::InvalidToken);
        },
    }
    match banned_token_store.ban_token(token.clone()) {
        Ok(()) => Ok(()),
        Err(_) => Err(AuthAPIError::TokenBanFailed),
    }
}

} // verus!
