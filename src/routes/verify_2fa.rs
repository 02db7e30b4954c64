use vstd::prelude::*;
use crate::domain::data_stores::{
    is_hyphenated_uuid, is_two_fa_code, uuid_canonical, ChallengeTable, LoginAttemptId, TwoFACode, TwoFACodeStore, TwoFACodeStoreError,
};
use crate::domain::email::{html5_email, Email};
use crate::domain::error::AuthAPIError;
use crate::utils::auth::{generate_auth_token, is_session_token_for};

verus! {

/// A second-factor answer as the client sends it.
pub struct Verify2FARequest {
    pub email: String,
    pub login_attempt_id: String,
    pub two_fa_code: String,
}

/// Each field of the answer has the shape of what it names.
pub open spec fn answer_well_formed(email: Seq<char>, id: Seq<char>, code: Seq<char>) -> bool {
    html5_email(email) && uuid_canonical(id) is Some && is_two_fa_code(code)
}

/// The challenge outstanding for `email` is exactly the pair given.
pub open spec fn challenge_matches(
    codes: ChallengeTable,
    email: Seq<char>,
    id: Seq<char>,
    code: Seq<char>,
) -> bool {
    codes.contains_key(email) && codes[email] == (id, code)
}

/// A well-formed answer that matches the challenge outstanding for its address.
pub open spec fn answer_fits(codes: ChallengeTable, email: Seq<char>, id: Seq<char>, code: Seq<char>) -> bool {
    answer_well_formed(email, id, code) && challenge_matches(codes, email, uuid_canonical(id)->0, code)
}

/// A second challenge for an address replaces the first: the first pair no
/// longer matches, unless the second happens to repeat it exactly.
pub proof fn lemma_new_challenge_supersedes(
    codes: ChallengeTable,
    email: Seq<char>,
    first_id: Seq<char>,
    first_code: Seq<char>,
    second_id: Seq<char>,
    second_code: Seq<char>,
)
    requires
        (first_id, first_code) != (second_id, second_code),
    ensures
        !challenge_matches(
            codes.insert(email, (first_id, first_code)).insert(email, (second_id, second_code)),
            email,
            first_id,
            first_code,
        ),
{
}

/// A challenge is good for one use: after a matching answer consumes it, the
/// same answer no longer matches.
pub proof fn lemma_challenge_single_use(
    codes: ChallengeTable,
    email: Seq<char>,
    id: Seq<char>,
    code: Seq<char>,
)
    ensures
        !challenge_matches(codes.remove(email), email, id, code),
{
}

/// Completes a login with its second factor. A malformed answer is refused
/// before the store is read. An answer that does not match the outstanding
/// challenge is refused as incorrect, and the challenge stays for a retry. A
/// matching one consumes the challenge, so the same answer cannot be used
/// twice, and yields a session token.
pub fn verify_2fa<T: TwoFACodeStore + ?Sized>(
    two_fa_code_store: &mut T,
    request: Verify2FARequest,
    jwt_secret: &str,
) -> (r: Result<String, AuthAPIError>)
    ensures
        !answer_well_formed(request.email@, request.login_attempt_id@, request.two_fa_code@) ==> r
            == Err::<String, AuthAPIError>(AuthAPIError::InvalidCredentials),
        answer_well_formed(request.email@, request.login_attempt_id@, request.two_fa_code@)
            && !answer_fits(
            old(two_fa_code_store).codes(),
            request.email@,
            request.login_attempt_id@,
            request.two_fa_code@,
        ) ==> r == Err::<String, AuthAPIError>(AuthAPIError::IncorrectCredentials) || (!old(
            two_fa_code_store).never_fails() && r == Err::<String, AuthAPIError>(
            AuthAPIError::UnexpectedError,
        ) && final(two_fa_code_store).codes() == old(two_fa_code_store).codes()),
        request.email@.len() == 0 || !request.email@.contains('@') ==> r == Err::<
            String,
            AuthAPIError,
        >(AuthAPIError::InvalidCredentials),
        final(two_fa_code_store).never_fails() == old(two_fa_code_store).never_fails(),
        r == Err::<String, AuthAPIError>(AuthAPIError::InvalidCredentials) || r == Err::<
            String,
            AuthAPIError,
        >(AuthAPIError::IncorrectCredentials) ==> final(two_fa_code_store).codes() == old(
            two_fa_code_store).codes(),
        match r {
            Ok(token) => {
                &&& answer_fits(
                    old(two_fa_code_store).codes(),
                    request.email@,
                    request.login_attempt_id@,
                    request.two_fa_code@,
                )
                &&& final(two_fa_code_store).codes() == old(two_fa_code_store).codes().remove(
                    request.email@)
                &&& is_session_token_for(token@, request.email@, jwt_secret@)
            },
            Err(e) => e == AuthAPIError::InvalidCredentials || e
                == AuthAPIError::IncorrectCredentials || e == AuthAPIError::UnexpectedError,
        },
        r == Err::<String, AuthAPIError>(AuthAPIError::UnexpectedError) ==> final(
            two_fa_code_store).codes() == old(two_fa_code_store).codes().remove(request.email@) || (
        !old(two_fa_code_store).never_fails() && final(two_fa_code_store).codes() == old(
            two_fa_code_store).codes()),
        answer_fits(
            old(two_fa_code_store).codes(),
            request.email@,
            request.login_attempt_id@,
            request.two_fa_code@,
        ) && old(two_fa_code_store).never_fails() ==> final(two_fa_code_store).codes() == old(
            two_fa_code_store).codes().remove(request.email@) && r is Ok,
        html5_email(request.email@) && is_hyphenated_uuid(request.login_attempt_id@)
            && is_two_fa_code(request.two_fa_code@) && challenge_matches(
            old(two_fa_code_store).codes(),
            request.email@,
            request.login_attempt_id@,
            request.two_fa_code@,
        ) && old(two_fa_code_store).never_fails() ==> r is Ok,
{
    let email = match Email::parse(request.email) {
        Ok(e) => e,
        Err(_) => return Err(AuthAPIError::InvalidCredentials),
    };
    let login_attempt_id = match LoginAttemptId::parse(request.login_attempt_id) {
        Ok(id) => id,
        Err(_) => return Err(AuthAPIError::InvalidCredentials),
    };
    let two_fa_code = match TwoFACode::parse(request.two_fa_code) {
        Ok(c) => c,
        Err(_) => return Err(AuthAPIError::InvalidCredentials),
    };
    let (stored_id, stored_code) = match two_fa_code_store.get_code(&email) {
        Ok(pair) => pair,
        Err(TwoFACodeStoreError::UnexpectedError) => return Err(AuthAPIError::UnexpectedError),
        Err(_) => return Err(AuthAPIError::IncorrectCredentials),
    };
    if !(login_attempt_id.same_as(&stored_id) && two_fa_code.same_as(&stored_code)) {
        return Err(AuthAPIError::IncorrectCredentials);
    }
    // The challenge is spent before anything else can fail.
    match two_fa_code_store.remove_code(&email) {
        Ok(()) => {},
        Err(TwoFACodeStoreError::LoginAttemptIdNotFound) => return Err(AuthAPIError::UnexpectedError),
        Err(TwoFACodeStoreError::UnexpectedError) => return Err(AuthAPIError::UnexpectedError),
    }
    match generate_auth_token(&email, jwt_secret) {
        Ok(token) => Ok(token),
        Err(_) => Err(AuthAPIError::UnexpectedError),
    }
}

} // verus!
