use auth_service::routes::login::{check_password, find_login_user, finish_login};
use auth_service::routes::signup::{complete_signup, prepare_signup};
use auth_service::routes::logout::ban_validated;
use auth_service::{Claims, TokenError};
use auth_service::domain::data_stores::{BannedTokenStore, TwoFACodeStore};
use auth_service::domain::{AuthAPIError, Email};
use auth_service::routes::{
    login, logout, signup, verify_2fa, verify_token, LoginRequest, LoginStep, SignupRequest,
    Verify2FARequest, VerifyTokenRequest,
};
use auth_service::routes::login::{two_fa_email_body, TwoFactorAuthResponse, TWO_FA_EMAIL_SUBJECT};
use auth_service::services::{HashmapTwoFACodeStore, HashmapUserStore, HashsetBannedTokenStore};

const SECRET: &str = "api-test-secret";

struct Service {
    users: HashmapUserStore,
    codes: HashmapTwoFACodeStore,
    banned: HashsetBannedTokenStore,
}

fn service() -> Service {
    Service {
        users: HashmapUserStore::default(),
        codes: HashmapTwoFACodeStore::default(),
        banned: HashsetBannedTokenStore::default(),
    }
}

fn signup_status(s: &mut Service, email: &str, password: &str, requires_2fa: bool) -> u16 {
    let request = SignupRequest {
        email: email.to_owned(),
        password: password.to_owned(),
        requires_2fa,
    };
    match signup(&mut s.users, request) {
        Ok(_) => 201,
        Err(e) => e.status_code(),
    }
}

fn do_login(s: &mut Service, email: &str, password: &str) -> Result<LoginStep, AuthAPIError> {
    let request = LoginRequest { email: email.to_owned(), password: password.to_owned() };
    login(&s.users, &mut s.codes, request, SECRET)
}

fn do_verify_2fa(s: &mut Service, email: &str, id: &str, code: &str) -> Result<String, AuthAPIError> {
    let request = Verify2FARequest {
        email: email.to_owned(),
        login_attempt_id: id.to_owned(),
        two_fa_code: code.to_owned(),
    };
    verify_2fa(&mut s.codes, request, SECRET)
}

fn verify_token_status(s: &Service, token: &str) -> u16 {
    match verify_token(&s.banned, VerifyTokenRequest { token: token.to_owned() }, SECRET) {
        Ok(()) => 200,
        Err(e) => e.status_code(),
    }
}

#[test]
fn should_return_201_if_valid_input() {
    let mut s = service();
    let response = signup(
        &mut s.users,
        SignupRequest {
            email: "new@example.com".to_owned(),
            password: "password123".to_owned(),
            requires_2fa: false,
        },
    );
    assert_eq!(response.unwrap().message, "User created successfully!");
}

#[test]
fn signup_should_return_400_if_invalid_input() {
    let mut s = service();
    for (email, password) in [("", "password123"), ("bad", "password123"), ("ok@example.com", "bad")] {
        let request = SignupRequest {
            email: email.to_owned(),
            password: password.to_owned(),
            requires_2fa: true,
        };
        let e = signup(&mut s.users, request).unwrap_err();
        assert_eq!(e.status_code(), 400, "Failed for input: {:?}", (email, password));
        assert_eq!(e.reason(), "Invalid credentials");
    }
}

#[test]
fn should_return_409_if_email_already_exists() {
    let mut s = service();
    assert_eq!(signup_status(&mut s, "dup@example.com", "password123", false), 201);
    let request = SignupRequest {
        email: "dup@example.com".to_owned(),
        password: "password123".to_owned(),
        requires_2fa: false,
    };
    let e = signup(&mut s.users, request).unwrap_err();
    assert_eq!(e.status_code(), 409);
    assert_eq!(e.reason(), "User already exists");
}

#[test]
fn login_without_2fa_yields_token() {
    let mut s = service();
    assert_eq!(signup_status(&mut s, "e@example.com", "password123", false), 201);
    let step = do_login(&mut s, "e@example.com", "password123").unwrap();
    assert_eq!(step.status_code(), 200);
    match step {
        LoginStep::Authenticated { token } => {
            assert!(!token.is_empty());
            assert_eq!(verify_token_status(&s, &token), 200);
        }
        other => panic!("unexpected step {:?}", other),
    }
}

#[test]
fn login_rejects_malformed_and_incorrect_credentials() {
    let mut s = service();
    assert_eq!(signup_status(&mut s, "e@example.com", "password123", false), 201);
    assert_eq!(do_login(&mut s, "bad", "password123").unwrap_err(), AuthAPIError::InvalidCredentials);
    assert_eq!(do_login(&mut s, "e@example.com", "short").unwrap_err(), AuthAPIError::InvalidCredentials);
    let wrong = do_login(&mut s, "e@example.com", "password124").unwrap_err();
    assert_eq!(wrong, AuthAPIError::IncorrectCredentials);
    assert_eq!(wrong.status_code(), 401);
    let unknown = do_login(&mut s, "who@example.com", "password123").unwrap_err();
    assert_eq!(unknown, AuthAPIError::IncorrectCredentials);
}

#[test]
fn should_return_200_valid_token() {
    let mut s = service();
    assert_eq!(signup_status(&mut s, "valid@example.com", "password123", false), 201);
    let step = do_login(&mut s, "valid@example.com", "password123").unwrap();
    assert_eq!(step.status_code(), 200);
    let LoginStep::Authenticated { token } = step else { panic!("No auth cookie found") };
    assert!(!token.is_empty());
    assert_eq!(verify_token_status(&s, &token), 200);
}

#[test]
fn verify_token_should_return_401_if_invalid_token() {
    let s = service();
    assert_eq!(verify_token_status(&s, "does not exist"), 401);
}

#[test]
fn should_return_401_if_banned_token() {
    let mut s = service();
    assert!(s.banned.add_token("banned").is_ok());
    assert_eq!(verify_token_status(&s, "banned"), 401);
}

fn challenge_of(step: LoginStep) -> (String, String, String) {
    match step {
        LoginStep::ChallengeIssued { email, login_attempt_id, code } => (
            email.as_ref().to_owned(),
            login_attempt_id.as_ref().to_owned(),
            code.as_ref().to_owned(),
        ),
        other => panic!("expected a challenge, got {:?}", other),
    }
}

#[test]
fn should_return_200_if_correct_code() {
    let mut s = service();
    assert_eq!(signup_status(&mut s, "twofa@example.com", "password123", true), 201);
    let step = do_login(&mut s, "twofa@example.com", "password123").unwrap();
    assert_eq!(step.status_code(), 206);
    let (email, id, code) = challenge_of(step);
    assert_eq!(email, "twofa@example.com");
    let stored = s.codes.get_code(&Email::parse(email.clone()).unwrap()).expect("2FA codes not found");
    assert_eq!(stored.0.as_ref(), id);
    assert_eq!(stored.1.as_ref(), code);
    let token = do_verify_2fa(&mut s, &email, &id, &code).expect("No auth cookie found");
    assert!(!token.is_empty());
    assert_eq!(verify_token_status(&s, &token), 200);
}

#[test]
fn should_return_401_if_same_code_twice() {
    let mut s = service();
    assert_eq!(signup_status(&mut s, "twice@example.com", "password123", true), 201);
    let step = do_login(&mut s, "twice@example.com", "password123").unwrap();
    assert_eq!(step.status_code(), 206);
    let (email, id, code) = challenge_of(step);
    let token = do_verify_2fa(&mut s, &email, &id, &code).expect("No auth cookie found");
    assert!(!token.is_empty());
    let again = do_verify_2fa(&mut s, &email, &id, &code).unwrap_err();
    assert_eq!(again.status_code(), 401);
}

#[test]
fn should_return_401_if_old_code() {
    let mut s = service();
    assert_eq!(signup_status(&mut s, "old@example.com", "password123", true), 201);
    let first = challenge_of(do_login(&mut s, "old@example.com", "password123").unwrap());
    let second = challenge_of(do_login(&mut s, "old@example.com", "password123").unwrap());
    assert_ne!((&first.1, &first.2), (&second.1, &second.2));
    let old = do_verify_2fa(&mut s, &first.0, &first.1, &first.2).unwrap_err();
    assert_eq!(old.status_code(), 401);
    // the newer challenge still works
    assert!(do_verify_2fa(&mut s, &second.0, &second.1, &second.2).is_ok());
}

#[test]
fn should_return_401_if_incorrect_credentials() {
    let mut s = service();
    let e = do_verify_2fa(
        &mut s,
        "random@example.com",
        "0e57bc50-071e-4965-a60f-4f0b3137c8bb",
        "123456",
    )
    .unwrap_err();
    assert_eq!(e.status_code(), 401);
}

#[test]
fn verify_2fa_should_return_400_if_invalid_input() {
    let mut s = service();
    let e = do_verify_2fa(&mut s, "random@example.com", "bad", "0").unwrap_err();
    assert_eq!(e.status_code(), 400);
}

#[test]
fn verify_2fa_mismatch_keeps_challenge() {
    let mut s = service();
    assert_eq!(signup_status(&mut s, "retry@example.com", "password123", true), 201);
    let (email, id, code) = challenge_of(do_login(&mut s, "retry@example.com", "password123").unwrap());
    let wrong_code = if code == "000000" { "111111" } else { "000000" };
    assert_eq!(
        do_verify_2fa(&mut s, &email, &id, wrong_code).unwrap_err(),
        AuthAPIError::IncorrectCredentials
    );
    assert!(do_verify_2fa(&mut s, &email, &id, &code).is_ok());
}

#[test]
fn should_return_400_if_jwt_cookie_missing() {
    let mut s = service();
    let e = logout(&mut s.banned, None, SECRET).unwrap_err();
    assert_eq!(e.status_code(), 400);
    assert_eq!(e.reason(), "Missing token");
}

#[test]
fn logout_should_return_401_if_invalid_token() {
    let mut s = service();
    let e = logout(&mut s.banned, Some("invalid".to_owned()), SECRET).unwrap_err();
    assert_eq!(e.status_code(), 401);
    assert_eq!(s.banned.has_token("invalid"), Ok(false));
}

#[test]
fn should_return_200_if_valid_jwt_cookie() {
    let mut s = service();
    let email = Email::parse("out@example.com".to_owned()).unwrap();
    let token = auth_service::utils::auth::generate_auth_token(&email, SECRET).unwrap();
    assert_eq!(logout(&mut s.banned, Some(token.clone()), SECRET), Ok(()));
    assert_eq!(s.banned.has_token(&token), Ok(true));
}

#[test]
fn should_return_400_if_logout_called_twice_in_a_row() {
    let mut s = service();
    assert_eq!(signup_status(&mut s, "bye@example.com", "password123", false), 201);
    let LoginStep::Authenticated { token } = do_login(&mut s, "bye@example.com", "password123").unwrap() else {
        panic!("No auth cookie found")
    };
    assert_eq!(logout(&mut s.banned, Some(token.clone()), SECRET), Ok(()));
    // the token is now banned
    assert_eq!(verify_token_status(&s, &token), 401);
    // the cookie was removed, so the second call carries none
    let e = logout(&mut s.banned, None, SECRET).unwrap_err();
    assert_eq!(e.status_code(), 400);
    // presenting the banned token again is refused as invalid
    assert_eq!(
        logout(&mut s.banned, Some(token), SECRET).unwrap_err(),
        AuthAPIError::InvalidToken
    );
}

#[test]
fn two_fa_message_carries_code() {
    let code = auth_service::domain::TwoFACode::parse("042042".to_owned()).unwrap();
    assert_eq!(two_fa_email_body(&code), "Hi there, here is your 2FA code: 042042");
    assert_eq!(TWO_FA_EMAIL_SUBJECT, "Your 2FA login code");
    let id = auth_service::domain::LoginAttemptId::parse("0e57bc50-071e-4965-a60f-4f0b3137c8bb".to_owned()).unwrap();
    let body = TwoFactorAuthResponse::new(&id);
    assert_eq!(body.message, "2FA required");
    assert_eq!(body.login_attempt_id, "0e57bc50-071e-4965-a60f-4f0b3137c8bb");
}

#[test]
fn error_statuses_and_reasons() {
    assert_eq!(AuthAPIError::UserAlreadyExists.status_code(), 409);
    assert_eq!(AuthAPIError::InvalidCredentials.status_code(), 400);
    assert_eq!(AuthAPIError::IncorrectCredentials.status_code(), 401);
    assert_eq!(AuthAPIError::UnexpectedError.status_code(), 500);
    assert_eq!(AuthAPIError::MissingToken.status_code(), 400);
    assert_eq!(AuthAPIError::InvalidToken.status_code(), 401);
    assert_eq!(AuthAPIError::InvalidToken.reason(), "Invalid token");
    let from_email: AuthAPIError = auth_service::domain::EmailError::InvalidEmail.into();
    assert_eq!(from_email, AuthAPIError::InvalidCredentials);
    let from_password: AuthAPIError = auth_service::domain::PasswordError::InvalidPassword.into();
    assert_eq!(from_password, AuthAPIError::InvalidCredentials);
}

#[test]
fn logout_ban_follows_validation() {
    let mut s = service();
    let refused = ban_validated(&mut s.banned, "tok", Err(TokenError::Expired));
    assert_eq!(refused, Err(AuthAPIError::InvalidToken));
    assert_eq!(s.banned.has_token("tok"), Ok(false));
    let claims = Claims { sub: "a@example.com".to_owned(), exp: 1 };
    assert_eq!(ban_validated(&mut s.banned, "tok", Ok(claims)), Ok(()));
    assert_eq!(s.banned.has_token("tok"), Ok(true));
}

#[test]
fn signup_and_login_in_steps() {
    let mut s = service();
    let request = SignupRequest {
        email: "steps@example.com".to_owned(),
        password: "password123".to_owned(),
        requires_2fa: true,
    };
    let record = prepare_signup(request).unwrap();
    assert_eq!(record.email.as_ref(), "steps@example.com");
    assert!(record.password_hash.starts_with("$argon2id$v=19$m=15000,t=2,p=1$"));
    assert_eq!(complete_signup(&mut s.users, record).unwrap().message, "User created successfully!");
    let again = prepare_signup(SignupRequest {
        email: "steps@example.com".to_owned(),
        password: "another-password".to_owned(),
        requires_2fa: false,
    })
    .unwrap();
    assert_eq!(complete_signup(&mut s.users, again).unwrap_err(), AuthAPIError::UserAlreadyExists);

    let request = LoginRequest { email: "steps@example.com".to_owned(), password: "wrong-password".to_owned() };
    let (user, password) = find_login_user(&s.users, request).unwrap();
    assert_eq!(check_password(&user, &password), Err(AuthAPIError::IncorrectCredentials));
    let request = LoginRequest { email: "steps@example.com".to_owned(), password: "password123".to_owned() };
    let (user, password) = find_login_user(&s.users, request).unwrap();
    assert_eq!(check_password(&user, &password), Ok(()));
    let step = finish_login(&user, &mut s.codes, SECRET).unwrap();
    assert_eq!(step.status_code(), 206);
    let unknown = LoginRequest { email: "nobody@example.com".to_owned(), password: "password123".to_owned() };
    assert_eq!(find_login_user(&s.users, unknown).unwrap_err(), AuthAPIError::IncorrectCredentials);
}
