use vstd::prelude::*;
use crate::domain::data_stores::BannedTokenStore;
use crate::domain::error::AuthAPIError;
use crate::utils::auth::{hs256_claims, validate_token, Claims, TokenError};

verus! {

/// Bans `token` once validation has accepted it. A refused token is reported
/// as invalid and nothing is banned.
pub fn ban_validated<B: BannedTokenStore + ?Sized>(
    banned_token_store: &mut B,
    token: &str,
    validation: Result<Claims, TokenError>,
) -> (r: Result<(), AuthAPIError>)
    ensures
        validation is Err ==> r == Err::<(), AuthAPIError>(AuthAPIError::InvalidToken),
        final(banned_token_store).never_fails() == old(banned_token_store).never_fails(),
        r is Err ==> final(banned_token_store).banned() == old(banned_token_store).banned(),
        r is Ok ==> validation is Ok && final(banned_token_store).banned() == old(
            banned_token_store).banned().insert(token@),
        validation is Ok ==> r is Ok || (!old(banned_token_store).never_fails() && r == Err::<
            (),
            AuthAPIError,
        >(AuthAPIError::UnexpectedError)),
{
    if validation.is_err() {
        return Err(AuthAPIError::InvalidToken);
    }
    match banned_token_store.add_token(token) {
        Ok(()) => Ok(()),
        Err(_) => Err(AuthAPIError::UnexpectedError),
    }
}

/// Ends a session: the token must be present and still valid, and is then
/// banned. A token that is already banned, forged or expired is reported as
/// invalid and nothing is banned.
pub fn logout<B: BannedTokenStore + ?Sized>(banned_token_store: &mut B, token: Option<String>, jwt_secret: &str) -> (r:
    Result<(), AuthAPIError>)
    ensures
        token is None ==> r == Err::<(), AuthAPIError>(AuthAPIError::MissingToken),
        final(banned_token_store).never_fails() == old(banned_token_store).never_fails(),
        token matches Some(t) && old(banned_token_store).banned().contains(t@) ==> r == Err::<
            (),
            AuthAPIError,
        >(AuthAPIError::InvalidToken),
        token is Some ==> r is Ok || r == Err::<(), AuthAPIError>(AuthAPIError::InvalidToken) || (
        !old(banned_token_store).never_fails() && r == Err::<(), AuthAPIError>(
            AuthAPIError::UnexpectedError,
        )),
        r is Err ==> final(banned_token_store).banned() == old(banned_token_store).banned(),
        r is Ok ==> (token matches Some(t) && !old(banned_token_store).banned().contains(t@)
            && hs256_claims(t@, jwt_secret@) is Some && final(banned_token_store).banned() == old(
            banned_token_store,
        ).banned().insert(t@)),
{
    let token = match token {
        Some(t) => t,
        None => return Err(AuthAPIError::MissingToken),
    };
    let validation = validate_token(&*banned_token_store, token.as_str(), jwt_secret);
    ban_validated(banned_token_store, token.as_str(), validation)
}

} // verus!
