//! The token-verification operation offered to other services.

use vstd::prelude::*;

use crate::auth::{jwt_of, validate_token};
use crate::data_stores::BannedTokenStore;
use crate::error::AuthAPIError;

verus! {

/// A decoded token-verification request.
pub struct VerifyTokenRequest {
    pub token: String,
}

/// Checks a presented token: success exactly when the token is not
/// revoked, carries a valid signature, and is not expired; every failure
/// is reported as an invalid token.
pub fn verify_token<B: BannedTokenStore>(
    banned_token_store: &B,
    request: &VerifyTokenRequest,
    secret: &str,
    now: u64,
) -> (r: Result<(), AuthAPIError>)
    ensures
        banned_token_store.tokens().contains(request.token@) ==> (r matches Err(e) && e
            == AuthAPIError::InvalidToken),
        forall|s: Seq<char>, e: u64|
            request.token@ == jwt_of(s, e, secret@) && !banned_token_store.tokens().contains(
                request.token@,
            ) && e > now ==> r matches Ok(_),
        forall|s: Seq<char>, e: u64|
            request.token@ == jwt_of(s, e, secret@) && e <= now ==> (r matches Err(err) && err
                == AuthAPIError::InvalidToken),
        r matches Err(e) ==> e == AuthAPIError::InvalidToken,
{
    match validate_token(banned_token_store, request.token.as_str(), secret, now) {
        Ok(_) => Ok(()),
        Err(_) => Err(AuthAPIError::InvalidToken),
    }
}

} // verus!
