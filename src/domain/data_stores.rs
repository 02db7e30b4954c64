use vstd::prelude::*;
use vstd::string::StrSliceExecFns;
use vstd::string::StringExecFns;
use vstd::utf8::{encode_utf8, is_ascii_chars};
use rand::Rng;
use crate::domain::email::Email;
use crate::domain::password::{byte_len, Password};
use crate::domain::user::{User, UserRecord};
use crate::services::password_hashing::{argon2_accepts, MAX_PASSWORD_BYTES};

verus! {

broadcast use vstd::utf8::is_ascii_chars_encode_utf8;

/// What a credential store keeps of each user, by address: the password hash
/// and whether a second factor is required.
pub type UserTable = Map<Seq<char>, (Seq<char>, bool)>;

/// What a challenge store keeps, by address: the login-attempt id and the code.
pub type ChallengeTable = Map<Seq<char>, (Seq<char>, Seq<char>)>;

/// Keeps user records, unique by address, with hashed passwords.
pub trait UserStore {
    spec fn users(&self) -> UserTable;

    /// The backend never reports a failure of its own (an in-memory store).
    spec fn never_fails(&self) -> bool;

    /// Adds a user whose address is new, storing a hash of the password that
    /// verifies against it. A known address is refused and the store kept. A
    /// failure of the hasher or of the backend leaves the store as it was.
    fn add_user(&mut self, user: User) -> (r: Result<(), UserStoreError>)
        ensures
            final(self).never_fails() == old(self).never_fails(),
            old(self).users().contains_key(user.email@) ==> r == Err::<(), UserStoreError>(
                UserStoreError::UserAlreadyExists,
            ) || (!old(self).never_fails() && r == Err::<(), UserStoreError>(
                UserStoreError::UnexpectedError,
            )),
            !old(self).users().contains_key(user.email@) ==> r is Ok || r == Err::<
                (),
                UserStoreError,
            >(UserStoreError::UnexpectedError),
            !old(self).users().contains_key(user.email@) && old(self).never_fails() && byte_len(
                user.password@,
            ) <= MAX_PASSWORD_BYTES ==> r is Ok,
            r is Ok ==> exists|h: Seq<char>|
                argon2_accepts(h, user.password@) && final(self).users() == old(self).users().insert(
                    user.email@,
                    (h, user.requires_2fa),
                ),
            r is Err ==> final(self).users() == old(self).users(),
    ;

    /// Stores a record whose password is already hashed, under an address
    /// that is new. A known address is refused and the store kept.
    fn insert_user(&mut self, record: UserRecord) -> (r: Result<(), UserStoreError>)
        ensures
            final(self).never_fails() == old(self).never_fails(),
            old(self).users().contains_key(record.email@) ==> r == Err::<(), UserStoreError>(
                UserStoreError::UserAlreadyExists,
            ) || (!old(self).never_fails() && r == Err::<(), UserStoreError>(
                UserStoreError::UnexpectedError,
            )),
            !old(self).users().contains_key(record.email@) ==> r is Ok || (!old(self).never_fails()
                && r == Err::<(), UserStoreError>(UserStoreError::UnexpectedError)),
            r is Ok ==> final(self).users() == old(self).users().insert(
                record.email@,
                (record.password_hash@, record.requires_2fa),
            ),
            r is Err ==> final(self).users() == old(self).users(),
    ;

    /// The record kept under `email`.
    fn get_user(&self, email: Email) -> (r: Result<UserRecord, UserStoreError>)
        ensures
            r matches Ok(u) ==> self.users().contains_key(email@) && u.email@ == email@
                && self.users()[email@] == (u.password_hash@, u.requires_2fa),
            !self.users().contains_key(email@) ==> r is Err,
            self.never_fails() && self.users().contains_key(email@) ==> r is Ok,
            r matches Err(e) ==> e == UserStoreError::UserNotFound || (!self.never_fails() && e
                == UserStoreError::UnexpectedError),
    ;

    /// Checks a password against the hash kept for `email`.
    fn validate_user(&self, email: Email, password: Password) -> (r: Result<(), UserStoreError>)
        ensures
            r == user_verdict(self.users(), email@, password@) || (!self.never_fails() && r
                == Err::<(), UserStoreError>(UserStoreError::UnexpectedError)),
    ;
}

/// The outcome of checking `password` for `email` against a user table.
pub open spec fn user_verdict(users: UserTable, email: Seq<char>, password: Seq<char>) -> Result<
    (),
    UserStoreError,
> {
    if !users.contains_key(email) {
        Err(UserStoreError::UserNotFound)
    } else if argon2_accepts(users[email].0, password) {
        Ok(())
    } else {
        Err(UserStoreError::InvalidCredentials)
    }
}

/// Adding a user is refused as already existing whenever the address is
/// known, and a successful add makes the address known: a second add for the
/// same address, with any password, is refused.
pub proof fn lemma_second_add_refused(
    users: UserTable,
    email: Seq<char>,
    hash: Seq<char>,
    requires_2fa: bool,
)
    ensures
        users.insert(email, (hash, requires_2fa)).contains_key(email),
{
}

/// Once a user is stored with a hash made from `password`, checking that
/// password succeeds, checking a password that argon2 rejects against the hash
/// fails as invalid credentials, and checking any password for an unknown
/// address fails as user not found.
pub proof fn lemma_validate_user_outcomes(
    users: UserTable,
    email: Seq<char>,
    password: Seq<char>,
    hash: Seq<char>,
    requires_2fa: bool,
    wrong_password: Seq<char>,
    unknown: Seq<char>,
    any_password: Seq<char>,
)
    requires
        argon2_accepts(hash, password),
        !argon2_accepts(hash, wrong_password),
        !users.contains_key(unknown),
        unknown != email,
    ensures
        user_verdict(users.insert(email, (hash, requires_2fa)), email, password) == Ok::<
            (),
            UserStoreError,
        >(()),
        user_verdict(users.insert(email, (hash, requires_2fa)), email, wrong_password) == Err::<
            (),
            UserStoreError,
        >(UserStoreError::InvalidCredentials),
        user_verdict(users.insert(email, (hash, requires_2fa)), unknown, any_password) == Err::<
            (),
            UserStoreError,
        >(UserStoreError::UserNotFound),
{
}

/// Keeps the tokens that are no longer accepted.
pub trait BannedTokenStore {
    spec fn banned(&self) -> Set<Seq<char>>;

    /// The backend never reports a failure of its own (an in-memory store).
    spec fn never_fails(&self) -> bool;

    /// Bans a token; banning it again changes nothing.
    fn add_token(&mut self, token: &str) -> (r: Result<(), BannedTokenStoreError>)
        ensures
            final(self).never_fails() == old(self).never_fails(),
            r is Ok ==> final(self).banned() == old(self).banned().insert(token@),
            r is Err ==> !old(self).never_fails() && final(self).banned() == old(self).banned(),
    ;

    /// Whether the token is banned.
    fn has_token(&self, token: &str) -> (r: Result<bool, BannedTokenStoreError>)
        ensures
            r matches Ok(b) ==> b == self.banned().contains(token@),
            r is Err ==> !self.never_fails(),
    ;
}

/// Keeps at most one outstanding two-factor challenge per address.
pub trait TwoFACodeStore {
    spec fn codes(&self) -> ChallengeTable;

    /// The backend never reports a failure of its own (an in-memory store).
    spec fn never_fails(&self) -> bool;

    /// Stores a challenge for `email`, replacing any earlier one.
    fn add_code(&mut self, email: Email, login_attempt_id: LoginAttemptId, code: TwoFACode) -> (r:
        Result<(), TwoFACodeStoreError>)
        ensures
            final(self).never_fails() == old(self).never_fails(),
            r is Ok ==> final(self).codes() == old(self).codes().insert(
                email@,
                (login_attempt_id@, code@),
            ),
            r is Err ==> !old(self).never_fails() && r == Err::<(), TwoFACodeStoreError>(
                TwoFACodeStoreError::UnexpectedError,
            ) && final(self).codes() == old(self).codes(),
    ;

    /// Drops the challenge of `email`; fails when there is none.
    fn remove_code(&mut self, email: &Email) -> (r: Result<(), TwoFACodeStoreError>)
        ensures
            final(self).never_fails() == old(self).never_fails(),
            r is Ok ==> final(self).codes() == old(self).codes().remove(email@),
            r == Err::<(), TwoFACodeStoreError>(TwoFACodeStoreError::LoginAttemptIdNotFound)
                ==> !old(self).codes().contains_key(email@) && final(self).codes() == old(
                self,
            ).codes(),
            r == Err::<(), TwoFACodeStoreError>(TwoFACodeStoreError::UnexpectedError) ==> !old(
                self,
            ).never_fails() && final(self).codes() == old(self).codes(),
            old(self).never_fails() ==> (r is Ok <==> old(self).codes().contains_key(email@)),
    ;

    /// The challenge outstanding for `email`.
    fn get_code(&self, email: &Email) -> (r: Result<(LoginAttemptId, TwoFACode), TwoFACodeStoreError>)
        ensures
            r matches Ok(p) ==> self.codes().contains_key(email@) && self.codes()[email@] == (
                p.0@,
                p.1@,
            ),
            !self.codes().contains_key(email@) ==> r is Err,
            self.never_fails() && self.codes().contains_key(email@) ==> r is Ok,
            r matches Err(e) ==> e == TwoFACodeStoreError::LoginAttemptIdNotFound || (
            !self.never_fails() && e == TwoFACodeStoreError::UnexpectedError),
    ;
}

#[derive(Debug, Clone, Copy, PartialEq, Eq)]
pub enum UserStoreError {
    UserAlreadyExists,
    UserNotFound,
    InvalidCredentials,
    UnexpectedError,
}

#[derive(Debug, Clone, Copy, PartialEq, Eq)]
pub enum BannedTokenStoreError {
    UnexpectedError,
}

#[derive(Debug, Clone, Copy, PartialEq, Eq)]
pub enum TwoFACodeStoreError {
    LoginAttemptIdNotFound,
    UnexpectedError,
}

/// Number of digits in a two-factor code.
pub const TWO_FA_CODE_LENGTH: usize = 6;

pub open spec fn is_ascii_digit(c: char) -> bool {
    '0' <= c <= '9'
}

pub open spec fn is_lower_hex_digit(c: char) -> bool {
    is_ascii_digit(c) || ('a' <= c <= 'f')
}

/// Exactly six ASCII digits; leading zeros are allowed.
pub open spec fn is_two_fa_code(s: Seq<char>) -> bool {
    &&& s.len() == TWO_FA_CODE_LENGTH
    &&& forall|i: int| 0 <= i < s.len() ==> is_ascii_digit(#[trigger] s[i])
}

/// The hyphenated lower-case text of a UUID: 8-4-4-4-12 hex digits.
pub open spec fn is_hyphenated_uuid(s: Seq<char>) -> bool {
    &&& s.len() == 36
    &&& forall|i: int|
        0 <= i < 36 ==> if i == 8 || i == 13 || i == 18 || i == 23 {
            s[i] == '-'
        } else {
            is_lower_hex_digit(#[trigger] s[i])
        }
}

/// The text that `uuid` prints for the UUID that it reads from `s`, or `None`
/// where it reads none.
pub uninterp spec fn uuid_canonical(s: Seq<char>) -> Option<Seq<char>>;

/// Relies on `uuid::Uuid::parse_str` (simple, hyphenated, braced or URN form)
/// and on `Uuid`'s `Display`, which prints the hyphenated lower-case form. Any
/// 8-4-4-4-12 hex text parses, so a text already in that form comes back
/// unchanged.
#[verifier::external_body]
fn canonical_uuid(s: &str) -> (r: Option<String>)
    ensures
        match r {
            Some(t) => uuid_canonical(s@) == Some(t@) && is_hyphenated_uuid(t@),
            None => uuid_canonical(s@) is None,
        },
        is_hyphenated_uuid(s@) ==> match r {
            Some(t) => t@ == s@,
            None => false,
        },
{
    uuid::Uuid::parse_str(s).ok().map(|u| u.to_string())
}

/// Relies on `uuid::Uuid::new_v4`, printed through `Uuid`'s `Display`: a fresh
/// random UUID in hyphenated lower-case form.
#[verifier::external_body]
fn random_uuid() -> (r: String)
    ensures
        is_hyphenated_uuid(r@),
{
    uuid::Uuid::new_v4().to_string()
}

/// Relies on `rand::Rng::gen_range` over `thread_rng`: a uniform digit value.
#[verifier::external_body]
fn random_digit() -> (d: u8)
    ensures
        d < 10,
{
    rand::thread_rng().gen_range(0..10u8)
}

/// The character that writes the digit value `d`.
pub open spec fn digit_char(d: int) -> char {
    seq!['0', '1', '2', '3', '4', '5', '6', '7', '8', '9'][d]
}

/// Identifies one login attempt that awaits its second factor.
#[derive(Debug, Clone, PartialEq)]
pub struct LoginAttemptId(String);

impl View for LoginAttemptId {
    type V = Seq<char>;

    closed spec fn view(&self) -> Seq<char> {
        self.0@
    }
}

impl LoginAttemptId {
    /// Accepts any text that `uuid` reads as a UUID and keeps it in its
    /// hyphenated lower-case form.
    pub fn parse(id: String) -> (r: Result<LoginAttemptId, String>)
        ensures
            r is Ok <==> uuid_canonical(id@) is Some,
            r matches Ok(v) ==> Some(v@) == uuid_canonical(id@) && is_hyphenated_uuid(v@),
            r matches Err(m) ==> m@ == "Invalid ID"@,
            is_hyphenated_uuid(id@) ==> (r matches Ok(v) && v@ == id@),
    {
        match canonical_uuid(id.as_str()) {
            Some(t) => Ok(LoginAttemptId(t)),
            None => Err("Invalid ID".to_string()),
        }
    }

    pub fn as_str(&self) -> (r: &str)
        ensures
            r@ == self@,
    {
        self.0.as_str()
    }

    /// Whether two identifiers are the same text.
    pub fn same_as(&self, other: &LoginAttemptId) -> (r: bool)
        ensures
            r == (self@ == other@),
    {
        self.0 == other.0
    }

    pub fn duplicate(&self) -> (r: LoginAttemptId)
        ensures
            r@ == self@,
    {
        LoginAttemptId(self.0.clone())
    }
}

impl Default for LoginAttemptId {
    /// A fresh random identifier.
    fn default() -> (r: LoginAttemptId)
        ensures
            is_hyphenated_uuid(r@),
    {
        LoginAttemptId(random_uuid())
    }
}

impl AsRef<str> for LoginAttemptId {
    fn as_ref(&self) -> &str {
        self.as_str()
    }
}

/// A two-factor code: six ASCII digits.
#[derive(Debug, Clone, PartialEq)]
pub struct TwoFACode(String);

impl View for TwoFACode {
    type V = Seq<char>;

    closed spec fn view(&self) -> Seq<char> {
        self.0@
    }
}

impl TwoFACode {
    /// Accepts exactly the strings of six ASCII digits.
    pub fn parse(code: String) -> (r: Result<TwoFACode, String>)
        ensures
            r is Ok <==> is_two_fa_code(code@),
            r matches Ok(c) ==> c@ == code@,
            r matches Err(m) ==> m@ == (if byte_len(code@) != TWO_FA_CODE_LENGTH {
                "Code must be exactly 6 digits"@
            } else {
                "Code must contain only digits"@
            }),
    {
        let bytes = code.as_str().as_bytes();
        if bytes.len() != TWO_FA_CODE_LENGTH {
            proof {
                if is_two_fa_code(code@) {
                    assert(is_ascii_chars(code@));
                }
            }
            return Err("Code must be exactly 6 digits".to_string());
        }
        assert(bytes@ == encode_utf8(code@));
        let n = code.as_str().unicode_len();
        let mut i: usize = 0;
        while i < n
            invariant
                n == code@.len(),
                byte_len(code@) == TWO_FA_CODE_LENGTH,
                i <= n,
                forall|j: int| 0 <= j < i ==> is_ascii_digit(#[trigger] code@[j]),
            decreases n - i,
        {
            let c = code.as_str().get_char(i);
            if !(c >= '0' && c <= '9') {
                return Err("Code must contain only digits".to_string());
            }
            i = i + 1;
        }
        assert(is_ascii_chars(code@));
        Ok(TwoFACode(code))
    }

    pub fn as_str(&self) -> (r: &str)
        ensures
            r@ == self@,
    {
        self.0.as_str()
    }

    /// The code that writes the six digit values in order.
    pub fn from_digits(digits: &Vec<u8>) -> (r: TwoFACode)
        requires
            digits@.len() == TWO_FA_CODE_LENGTH,
            forall|j: int| 0 <= j < digits@.len() ==> #[trigger] digits@[j] < 10,
        ensures
            r@ == digits@.map_values(|d: u8| digit_char(d as int)),
            is_two_fa_code(r@),
    {
        let text = "0123456789";
        proof {
            reveal_strlit("0123456789");
            assert(text@ =~= seq!['0', '1', '2', '3', '4', '5', '6', '7', '8', '9']);
        }
        let mut s = String::new();
        let mut i: usize = 0;
        while i < digits.len()
            invariant
                i <= digits@.len(),
                digits@.len() == TWO_FA_CODE_LENGTH,
                forall|j: int| 0 <= j < digits@.len() ==> #[trigger] digits@[j] < 10,
                text@ == seq!['0', '1', '2', '3', '4', '5', '6', '7', '8', '9'],
                s@ =~= digits@.subrange(0, i as int).map_values(|d: u8| digit_char(d as int)),
            decreases digits@.len() - i,
        {
            let d = digits[i] as usize;
            let one = text.substring_char(d, d + 1);
            s.append(one);
            assert(digits@.subrange(0, i + 1).map_values(|d: u8| digit_char(d as int)) =~= digits@.subrange(
                0,
                i as int,
            ).map_values(|d: u8| digit_char(d as int)).push(digit_char(d as int)));
            i = i + 1;
        }
        assert(digits@.subrange(0, i as int) =~= digits@);
        assert(forall|j: int| 0 <= j < s@.len() ==> is_ascii_digit(#[trigger] s@[j])) by {
            assert forall|j: int| 0 <= j < s@.len() implies is_ascii_digit(#[trigger] s@[j]) by {
                assert(s@[j] == digit_char(digits@[j] as int));
            }
        }
        TwoFACode(s)
    }

    /// Whether two codes are the same digits.
    pub fn same_as(&self, other: &TwoFACode) -> (r: bool)
        ensures
            r == (self@ == other@),
    {
        self.0 == other.0
    }

    pub fn duplicate(&self) -> (r: TwoFACode)
        ensures
            r@ == self@,
    {
        TwoFACode(self.0.clone())
    }
}

impl Default for TwoFACode {
    /// Six digits, each drawn uniformly from 0 to 9.
    fn default() -> (r: TwoFACode)
        ensures
            is_two_fa_code(r@),
    {
        let mut digits: Vec<u8> = Vec::new();
        while digits.len() < TWO_FA_CODE_LENGTH
            invariant
                digits@.len() <= TWO_FA_CODE_LENGTH,
                forall|j: int| 0 <= j < digits@.len() ==> #[trigger] digits@[j] < 10,
            decreases TWO_FA_CODE_LENGTH - digits@.len(),
        {
            digits.push(random_digit());
        }
        TwoFACode::from_digits(&digits)
    }
}

impl AsRef<str> for TwoFACode {
    fn as_ref(&self) -> &str {
        self.as_str()
    }
}

} // verus!
