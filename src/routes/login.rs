use vstd::prelude::*;
use vstd::string::StringExecFns;
use crate::domain::data_stores::{
    is_hyphenated_uuid, is_two_fa_code, user_verdict, LoginAttemptId, TwoFACode, TwoFACodeStore,
    UserStore, UserStoreError,
};
use crate::domain::email::Email;
use crate::domain::error::AuthAPIError;
use crate::domain::password::Password;
use crate::domain::user::UserRecord;
use crate::services::password_hashing::{argon2_accepts, verify_password_hash};
use crate::routes::signup::credentials_well_formed;
use crate::utils::auth::{generate_auth_token, is_session_token_for};

verus! {

/// A login as the client sends it.
#[derive(Debug)]
pub struct LoginRequest {
    pub email: String,
    pub password: String,
}

/// The body of a successful login.
#[derive(Debug)]
pub enum LoginResponse {
    RegularAuth,
    TwoFactorAuth(TwoFactorAuthResponse),
}

/// The body of a login that waits for its second factor.
#[derive(Debug)]
pub struct TwoFactorAuthResponse {
    pub message: String,
    pub login_attempt_id: String,
}

impl TwoFactorAuthResponse {
    /// The reply that names the attempt to complete.
    pub fn new(login_attempt_id: &LoginAttemptId) -> (r: TwoFactorAuthResponse)
        ensures
            r.message@ == "2FA required"@,
            r.login_attempt_id@ == login_attempt_id@,
    {
        TwoFactorAuthResponse {
            message: "2FA required".to_string(),
            login_attempt_id: login_attempt_id.as_str().to_owned(),
        }
    }
}

/// Where a successful login stands.
#[derive(Debug)]
pub enum LoginStep {
    /// No second factor is required: the session token to hand out.
    Authenticated { token: String },
    /// A challenge was stored for the address. The code is to be delivered to
    /// it out of band, and only the attempt id returned to the client.
    ChallengeIssued { email: Email, login_attempt_id: LoginAttemptId, code: TwoFACode },
}

impl LoginStep {
    /// The HTTP status of the step: complete, or partial while the second
    /// factor is awaited.
    pub fn status_code(&self) -> (r: u16)
        ensures
            r == (if self is Authenticated {
                200u16
            } else {
                206u16
            }),
    {
        match self {
            LoginStep::Authenticated { .. } => 200,
            LoginStep::ChallengeIssued { .. } => 206,
        }
    }
}

/// Subject of the message that carries a two-factor code.
pub const TWO_FA_EMAIL_SUBJECT: &'static str = "Your 2FA login code";

/// The text of the message that carries `code`.
pub fn two_fa_email_body(code: &TwoFACode) -> (r: String)
    ensures
        r@ == "Hi there, here is your 2FA code: "@ + code@,
{
    let mut body = "Hi there, here is your 2FA code: ".to_string();
    body.append(code.as_str());
    body
}

/// Issues a fresh challenge for `email`, replacing any earlier one.
pub fn handle_2fa<T: TwoFACodeStore + ?Sized>(email: &Email, two_fa_code_store: &mut T) -> (r: Result<
    LoginStep,
    AuthAPIError,
>)
    ensures
        match r {
            Ok(LoginStep::ChallengeIssued { email: e, login_attempt_id: id, code: c }) => {
                &&& e@ == email@
                &&& is_hyphenated_uuid(id@)
                &&& is_two_fa_code(c@)
                &&& final(two_fa_code_store).codes() == old(two_fa_code_store).codes().insert(
                    email@,
                    (id@, c@),
                )
            },
            Ok(LoginStep::Authenticated { .. }) => false,
            Err(e) => e == AuthAPIError::UnexpectedError && !old(two_fa_code_store).never_fails()
                && final(two_fa_code_store).codes() == old(two_fa_code_store).codes(),
        },
        final(two_fa_code_store).never_fails() == old(two_fa_code_store).never_fails(),
{
    let login_attempt_id = LoginAttemptId::default();
    let two_fa_code = TwoFACode::default();
    match two_fa_code_store.add_code(
        email.duplicate(),
        login_attempt_id.duplicate(),
        two_fa_code.duplicate(),
    ) {
        Ok(()) => {},
        Err(_) => return Err(AuthAPIError::UnexpectedError),
    }
    Ok(LoginStep::ChallengeIssued { email: email.duplicate(), login_attempt_id, code: two_fa_code })
}

/// Issues a session token for `email`.
pub fn handle_no_2fa(email: &Email, jwt_secret: &str) -> (r: Result<LoginStep, AuthAPIError>)
    ensures
        match r {
            Ok(LoginStep::Authenticated { token }) => is_session_token_for(
                token@,
                email@,
                jwt_secret@,
            ),
            _ => false,
        },
{
    match generate_auth_token(email, jwt_secret) {
        Ok(token) => Ok(LoginStep::Authenticated { token }),
        Err(_) => Err(AuthAPIError::UnexpectedError),
    }
}

/// Finds the user that a login names. Malformed credentials are refused
/// before the store is read; an unknown address is refused as incorrect; a
/// failure of the store is reported as unexpected.
pub fn find_login_user<U: UserStore + ?Sized>(user_store: &U, request: LoginRequest) -> (r: Result<
    (UserRecord, Password),
    AuthAPIError,
>)
    ensures
        !credentials_well_formed(request.email@, request.password@) ==> r == Err::<
            (UserRecord, Password),
            AuthAPIError,
        >(AuthAPIError::InvalidCredentials),
        credentials_well_formed(request.email@, request.password@) && !user_store.users().contains_key(
            request.email@,
        ) ==> r == Err::<(UserRecord, Password), AuthAPIError>(AuthAPIError::IncorrectCredentials)
            || (!user_store.never_fails() && r == Err::<(UserRecord, Password), AuthAPIError>(
            AuthAPIError::UnexpectedError,
        )),
        credentials_well_formed(request.email@, request.password@) && user_store.users().contains_key(
            request.email@,
        ) && user_store.never_fails() ==> r is Ok,
        match r {
            Ok(found) => {
                &&& credentials_well_formed(request.email@, request.password@)
                &&& user_store.users().contains_key(request.email@)
                &&& found.0.email@ == request.email@
                &&& user_store.users()[request.email@] == (found.0.password_hash@, found.0.requires_2fa)
                &&& found.1@ == request.password@
            },
            Err(e) => (e == AuthAPIError::InvalidCredentials && !credentials_well_formed(
                request.email@,
                request.password@,
            )) || e == AuthAPIError::IncorrectCredentials || (!user_store.never_fails() && e
                == AuthAPIError::UnexpectedError),
        },
        request.email@.len() == 0 || !request.email@.contains('@') ==> r == Err::<
            (UserRecord, Password),
            AuthAPIError,
        >(AuthAPIError::InvalidCredentials),
{
    let email = match Email::parse(request.email) {
        Ok(e) => e,
        Err(_) => return Err(AuthAPIError::InvalidCredentials),
    };
    let password = match Password::parse(request.password) {
        Ok(p) => p,
        Err(_) => return Err(AuthAPIError::InvalidCredentials),
    };
    match user_store.get_user(email) {
        Ok(user) => Ok((user, password)),
        Err(UserStoreError::UnexpectedError) => Err(AuthAPIError::UnexpectedError),
        Err(_) => Err(AuthAPIError::IncorrectCredentials),
    }
}

/// Checks a password against a user's stored hash; a mismatch is incorrect.
pub fn check_password(user: &UserRecord, password: &Password) -> (r: Result<(), AuthAPIError>)
    ensures
        r == (if argon2_accepts(user.password_hash@, password@) {
            Ok(())
        } else {
            Err(AuthAPIError::IncorrectCredentials)
        }),
{
    match verify_password_hash(user.password_hash.as_str(), password) {
        Ok(()) => Ok(()),
        Err(_) => Err(AuthAPIError::IncorrectCredentials),
    }
}

/// Ends a login whose password was accepted: a session token, or for a user
/// who requires a second factor a stored challenge.
pub fn finish_login<T: TwoFACodeStore + ?Sized>(
    user: &UserRecord,
    two_fa_code_store: &mut T,
    jwt_secret: &str,
) -> (r: Result<LoginStep, AuthAPIError>)
    ensures
        final(two_fa_code_store).never_fails() == old(two_fa_code_store).never_fails(),
        !user.requires_2fa ==> final(two_fa_code_store).codes() == old(two_fa_code_store).codes()
            && match r {
            Ok(LoginStep::Authenticated { token }) => is_session_token_for(
                token@,
                user.email@,
                jwt_secret@,
            ),
            _ => false,
        },
        user.requires_2fa ==> match r {
            Ok(LoginStep::ChallengeIssued { email: e, login_attempt_id: id, code: c }) => {
                &&& e@ == user.email@
                &&& is_hyphenated_uuid(id@)
                &&& is_two_fa_code(c@)
                &&& final(two_fa_code_store).codes() == old(two_fa_code_store).codes().insert(
                    user.email@,
                    (id@, c@),
                )
            },
            Ok(LoginStep::Authenticated { .. }) => false,
            Err(e) => e == AuthAPIError::UnexpectedError && !old(two_fa_code_store).never_fails()
                && final(two_fa_code_store).codes() == old(two_fa_code_store).codes(),
        },
{
    if user.requires_2fa {
        handle_2fa(&user.email, two_fa_code_store)
    } else {
        handle_no_2fa(&user.email, jwt_secret)
    }
}

/// Checks the credentials, then either hands out a session token or, for a
/// user who requires a second factor, stores a challenge for the address: the
/// three steps above in turn.
/// Malformed credentials are refused before any store is read; credentials
/// that do not match a user are refused as incorrect; a failure of a store is
/// reported as unexpected.
pub fn login<U: UserStore + ?Sized, T: TwoFACodeStore + ?Sized>(
    user_store: &U,
    two_fa_code_store: &mut T,
    request: LoginRequest,
    jwt_secret: &str,
) -> (r: Result<LoginStep, AuthAPIError>)
    ensures
        !credentials_well_formed(request.email@, request.password@) ==> r == Err::<
            LoginStep,
            AuthAPIError,
        >(AuthAPIError::InvalidCredentials),
        request.email@.len() == 0 || !request.email@.contains('@') ==> r == Err::<
            LoginStep,
            AuthAPIError,
        >(AuthAPIError::InvalidCredentials),
        credentials_well_formed(request.email@, request.password@) && user_verdict(
            user_store.users(),
            request.email@,
            request.password@,
        ) is Err ==> r == Err::<LoginStep, AuthAPIError>(AuthAPIError::IncorrectCredentials) || (
        !user_store.never_fails() && r == Err::<LoginStep, AuthAPIError>(
            AuthAPIError::UnexpectedError,
        )),
        final(two_fa_code_store).never_fails() == old(two_fa_code_store).never_fails(),
        match r {
            Ok(LoginStep::Authenticated { token }) => {
                &&& credentials_well_formed(request.email@, request.password@)
                &&& user_verdict(user_store.users(), request.email@, request.password@) is Ok
                &&& !user_store.users()[request.email@].1
                &&& is_session_token_for(token@, request.email@, jwt_secret@)
            },
            Ok(LoginStep::ChallengeIssued { email: e, login_attempt_id: id, code: c }) => {
                &&& credentials_well_formed(request.email@, request.password@)
                &&& user_verdict(user_store.users(), request.email@, request.password@) is Ok
                &&& user_store.users()[request.email@].1
                &&& e@ == request.email@
                &&& is_hyphenated_uuid(id@)
                &&& is_two_fa_code(c@)
                &&& final(two_fa_code_store).codes() == old(two_fa_code_store).codes().insert(
                    request.email@,
                    (id@, c@),
                )
            },
            Err(e) => e == AuthAPIError::InvalidCredentials || e == AuthAPIError::IncorrectCredentials
                || e == AuthAPIError::UnexpectedError,
        },
        !(r matches Ok(LoginStep::ChallengeIssued { .. })) ==> final(two_fa_code_store).codes()
            == old(two_fa_code_store).codes(),
        credentials_well_formed(request.email@, request.password@) && user_verdict(
            user_store.users(),
            request.email@,
            request.password@,
        ) is Ok && user_store.never_fails() && !user_store.users()[request.email@].1 ==> r matches Ok(
            LoginStep::Authenticated { .. },
        ),
        credentials_well_formed(request.email@, request.password@) && user_verdict(
            user_store.users(),
            request.email@,
            request.password@,
        ) is Ok && user_store.never_fails() && old(two_fa_code_store).never_fails()
            && user_store.users()[request.email@].1 ==> r is Ok,
{
    let (user, password) = match find_login_user(user_store, request) {
        Ok(found) => found,
        Err(e) => return Err(e),
    };
    match check_password(&user, &password) {
        Ok(()) => {},
        Err(e) => return Err(e),
    }
    finish_login(&user, two_fa_code_store, jwt_secret)
}

} // verus!
