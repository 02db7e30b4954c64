use vstd::prelude::*;
use crate::domain::data_stores::{UserStore, UserStoreError};
use crate::domain::email::{html5_email, Email};
use crate::domain::error::AuthAPIError;
use crate::domain::password::{byte_len, is_valid_password, Password};
use crate::domain::user::UserRecord;
use crate::services::password_hashing::{
    argon2_accepts, argon2id_phc, compute_password_hash, is_salt_text, MAX_PASSWORD_BYTES,
};

verus! {

/// A signup as the client sends it.
pub struct SignupRequest {
    pub email: String,
    pub password: String,
    pub requires_2fa: bool,
}

/// The body of a successful signup.
#[derive(Debug, Clone, PartialEq, Eq)]
pub struct SignupResponse {
    pub message: String,
}

/// The address and password of a request are well formed.
pub open spec fn credentials_well_formed(email: Seq<char>, password: Seq<char>) -> bool {
    html5_email(email) && is_valid_password(password)
}

/// Turns a signup into the record to store: the address and the flag as
/// given, and an Argon2id hash of the password over a fresh salt. Malformed
/// credentials are refused; no store is involved, so the expensive hashing
/// can run with no store held.
pub fn prepare_signup(request: SignupRequest) -> (r: Result<UserRecord, AuthAPIError>)
    ensures
        !credentials_well_formed(request.email@, request.password@) ==> r == Err::<
            UserRecord,
            AuthAPIError,
        >(AuthAPIError::InvalidCredentials),
        request.email@.len() == 0 || !request.email@.contains('@') ==> r == Err::<
            UserRecord,
            AuthAPIError,
        >(AuthAPIError::InvalidCredentials),
        credentials_well_formed(request.email@, request.password@) && byte_len(request.password@)
            <= MAX_PASSWORD_BYTES ==> r is Ok,
        match r {
            Ok(record) => {
                &&& credentials_well_formed(request.email@, request.password@)
                &&& record.email@ == request.email@
                &&& record.requires_2fa == request.requires_2fa
                &&& argon2_accepts(record.password_hash@, request.password@)
                &&& exists|salt: Seq<char>|
                    is_salt_text(salt) && record.password_hash@ == argon2id_phc(request.password@, salt)
            },
            Err(e) => (e == AuthAPIError::InvalidCredentials && !credentials_well_formed(
                request.email@,
                request.password@,
            )) || e == AuthAPIError::UnexpectedError,
        },
{
    let email = match Email::parse(request.email) {
        Ok(e) => e,
        Err(_) => return Err(AuthAPIError::InvalidCredentials),
    };
    let password = match Password::parse(request.password) {
        Ok(p) => p,
        Err(_) => return Err(AuthAPIError::InvalidCredentials),
    };
    match compute_password_hash(&password) {
        Ok(password_hash) => Ok(UserRecord { email, password_hash, requires_2fa: request.requires_2fa }),
        Err(_) => Err(AuthAPIError::UnexpectedError),
    }
}

/// Stores a prepared record under a new address; a known address is refused.
pub fn complete_signup<U: UserStore + ?Sized>(user_store: &mut U, record: UserRecord) -> (r: Result<
    SignupResponse,
    AuthAPIError,
>)
    ensures
        final(user_store).never_fails() == old(user_store).never_fails(),
        old(user_store).users().contains_key(record.email@) ==> r == Err::<
            SignupResponse,
            AuthAPIError,
        >(AuthAPIError::UserAlreadyExists) || (!old(user_store).never_fails() && r == Err::<
            SignupResponse,
            AuthAPIError,
        >(AuthAPIError::UnexpectedError)),
        !old(user_store).users().contains_key(record.email@) ==> r is Ok || (!old(
            user_store).never_fails() && r == Err::<SignupResponse, AuthAPIError>(
            AuthAPIError::UnexpectedError,
        )),
        r is Err ==> final(user_store).users() == old(user_store).users(),
        r matches Ok(resp) ==> resp.message@ == "User created successfully!"@ && final(
            user_store).users() == old(user_store).users().insert(
            record.email@,
            (record.password_hash@, record.requires_2fa),
        ),
{
    match user_store.get_user(record.email.duplicate()) {
        Ok(_) => return Err(AuthAPIError::UserAlreadyExists),
        Err(UserStoreError::UnexpectedError) => return Err(AuthAPIError::UnexpectedError),
        Err(_) => {},
    }
    match user_store.insert_user(record) {
        Ok(()) => {},
        Err(UserStoreError::UserAlreadyExists) => return Err(AuthAPIError::UserAlreadyExists),
        Err(_) => return Err(AuthAPIError::UnexpectedError),
    }
    Ok(SignupResponse { message: "User created successfully!".to_string() })
}

/// Registers a new user: the record is prepared, then stored. Malformed
/// credentials are refused before the store is touched; a known address is
/// refused; a failure of the store or of the hasher is reported as unexpected.
pub fn signup<U: UserStore + ?Sized>(user_store: &mut U, request: SignupRequest) -> (r: Result<
    SignupResponse,
    AuthAPIError,
>)
    ensures
        !credentials_well_formed(request.email@, request.password@) ==> r == Err::<
            SignupResponse,
            AuthAPIError,
        >(AuthAPIError::InvalidCredentials),
        request.email@.len() == 0 || !request.email@.contains('@') ==> r == Err::<
            SignupResponse,
            AuthAPIError,
        >(AuthAPIError::InvalidCredentials),
        final(user_store).never_fails() == old(user_store).never_fails(),
        credentials_well_formed(request.email@, request.password@) && byte_len(request.password@)
            <= MAX_PASSWORD_BYTES && old(user_store).users().contains_key(request.email@) ==> r
            == Err::<SignupResponse, AuthAPIError>(AuthAPIError::UserAlreadyExists) || (!old(
            user_store).never_fails() && r == Err::<SignupResponse, AuthAPIError>(
            AuthAPIError::UnexpectedError,
        )),
        credentials_well_formed(request.email@, request.password@) && !old(user_store).users().contains_key(
            request.email@,
        ) ==> r is Ok || r == Err::<SignupResponse, AuthAPIError>(AuthAPIError::UnexpectedError),
        credentials_well_formed(request.email@, request.password@) && !old(user_store).users().contains_key(
            request.email@,
        ) && old(user_store).never_fails() && byte_len(request.password@) <= MAX_PASSWORD_BYTES
            ==> r is Ok,
        r is Err ==> final(user_store).users() == old(user_store).users(),
        r matches Ok(resp) ==> resp.message@ == "User created successfully!"@ && exists|h: Seq<char>|
            argon2_accepts(h, request.password@) && final(user_store).users() == old(user_store).users().insert(
                request.email@,
                (h, request.requires_2fa),
            ),
{
    let record = match prepare_signup(request) {
        Ok(record) => record,
        Err(e) => return Err(e),
    };
    complete_signup(user_store, record)
}

} // verus!
