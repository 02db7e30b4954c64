use vstd::prelude::*;
use crate::domain::data_stores::{BannedTokenStore, BannedTokenStoreError};
use crate::domain::error::AuthAPIError;
use crate::utils::auth::{hs256_claims, token_outcome, validate_token, UNIX_NOW_BOUND};

verus! {

/// A token check as the client sends it.
pub struct VerifyTokenRequest {
    pub token: String,
}

/// Accepts a token that is not banned, carries a good signature and has not
/// expired; every refusal is reported alike, as an invalid token.
pub fn verify_token<B: BannedTokenStore + ?Sized>(
    banned_token_store: &B,
    request: VerifyTokenRequest,
    jwt_secret: &str,
) -> (r: Result<(), AuthAPIError>)
    ensures
        banned_token_store.banned().contains(request.token@) ==> r == Err::<(), AuthAPIError>(
            AuthAPIError::InvalidToken,
        ),
        r is Err ==> r == Err::<(), AuthAPIError>(AuthAPIError::InvalidToken),
        exists|lookup: Result<bool, BannedTokenStoreError>, now: int|
            #![trigger token_outcome(lookup, request.token@, jwt_secret@, now)]
            {
                &&& 0 <= now < UNIX_NOW_BOUND
                &&& lookup matches Ok(b) ==> b == banned_token_store.banned().contains(request.token@)
                &&& lookup is Err ==> !banned_token_store.never_fails()
                &&& (r is Ok <==> token_outcome(lookup, request.token@, jwt_secret@, now) is None)
            },
        r is Ok ==> !banned_token_store.banned().contains(request.token@) && hs256_claims(
            request.token@,
            jwt_secret@,
        ) is Some,
{
    match validate_token(banned_token_store, request.token.as_str(), jwt_secret) {
        Ok(_) => Ok(()),
        Err(_) => Err(AuthAPIError::InvalidToken),
    }
}

} // verus!
