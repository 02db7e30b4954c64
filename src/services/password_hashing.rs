use vstd::prelude::*;
use argon2::password_hash::SaltString;
use argon2::{Algorithm, Argon2, Params, PasswordHash, PasswordHasher, PasswordVerifier, Version};
use crate::domain::data_stores::UserStoreError;
use crate::domain::password::{byte_len, Password};

verus! {

/// Whether argon2 accepts `password` against the PHC string `hash`.
pub uninterp spec fn argon2_accepts(hash: Seq<char>, password: Seq<char>) -> bool;

/// The PHC string that argon2 makes from `password` with Argon2id, version
/// 0x13, 15000 KiB, two passes and one lane, over the B64 salt `salt`.
pub uninterp spec fn argon2id_phc(password: Seq<char>, salt: Seq<char>) -> Seq<char>;

/// The text that opens every hash made here, up to its salt.
pub const PHC_PREFIX: &'static str = "$argon2id$v=19$m=15000,t=2,p=1$";

pub open spec fn is_b64_char(c: char) -> bool {
    ('A' <= c <= 'Z') || ('a' <= c <= 'z') || ('0' <= c <= '9') || c == '+' || c == '/'
}

/// The unpadded standard Base64 text of 16 bytes: 22 characters, the last of
/// which carries only two bits of data.
pub open spec fn is_salt_text(s: Seq<char>) -> bool {
    &&& s.len() == 22
    &&& forall|i: int| 0 <= i < 22 ==> is_b64_char(#[trigger] s[i])
    &&& (s[21] == 'A' || s[21] == 'Q' || s[21] == 'g' || s[21] == 'w')
}

/// The head of a hash over `salt`: the fixed prefix, the salt and a `$`.
pub open spec fn phc_head(salt: Seq<char>) -> Seq<char> {
    PHC_PREFIX@ + salt + seq!['$']
}

/// `hash` opens with the head for `salt`, and goes on past it.
pub open spec fn has_phc_head(hash: Seq<char>, salt: Seq<char>) -> bool {
    hash.len() > phc_head(salt).len() && hash.subrange(0, phc_head(salt).len() as int) == phc_head(salt)
}

/// Relies on `SaltString::generate` over `thread_rng`: 16 random bytes written
/// in unpadded standard Base64 (`base64ct::Base64Unpadded`).
#[verifier::external_body]
fn generate_salt() -> (r: String)
    ensures
        is_salt_text(r@),
{
    SaltString::generate(&mut rand::thread_rng()).as_str().to_owned()
}

/// Relies on `SaltString::from_b64` and argon2's `PasswordHasher::hash_password`
/// (Argon2id, version 0x13, 15000 KiB, two passes, one lane), printed through
/// `PasswordHash`'s `Display` as `$argon2id$v=19$m=15000,t=2,p=1$<salt>$<hash>`.
/// The string carries algorithm, version, parameters and salt, from which
/// `PasswordVerifier::verify_password` recomputes the same output, so it
/// verifies against its password. These parameters pass `Params::new` and a
/// 16-byte salt passes the salt checks, so only a password longer than
/// `MAX_PWD_LEN` bytes, or a salt that does not decode, fails.
#[verifier::external_body]
fn argon2id_hash(password: &str, salt: &str) -> (r: Option<String>)
    ensures
        r matches Some(h) ==> h@ == argon2id_phc(password@, salt@),
        r matches Some(h) ==> argon2_accepts(h@, password@),
        r matches Some(h) ==> has_phc_head(h@, salt@),
        byte_len(password@) <= MAX_PASSWORD_BYTES && is_salt_text(salt@) ==> r is Some,
{
    let salt = SaltString::from_b64(salt).ok()?;
    let params = Params::new(15000, 2, 1, None).ok()?;
    let hasher = Argon2::new(Algorithm::Argon2id, Version::V0x13, params);
    hasher.hash_password(password.as_bytes(), &salt).ok().map(|h| h.to_string())
}

/// Relies on argon2's `PasswordHash::new` and `PasswordVerifier::verify_password`
/// on `Argon2::default()`: the verdict depends on the two strings alone.
#[verifier::external_body]
fn argon2_verify(hash: &str, candidate: &str) -> (r: bool)
    ensures
        r == argon2_accepts(hash@, candidate@),
{
    match PasswordHash::new(hash) {
        Ok(parsed) => Argon2::default().verify_password(candidate.as_bytes(), &parsed).is_ok(),
        Err(_) => false,
    }
}

/// Longest password, in bytes, that argon2 accepts.
pub const MAX_PASSWORD_BYTES: usize = 0xFFFF_FFFF;

/// Hashes a password over the given salt: the Argon2id PHC string over
/// both, which opens with the salt and verifies against the password. Only a
/// password beyond argon2's length limit, or a salt that is not 16 bytes of
/// Base64, fails, as an unexpected error.
pub fn compute_password_hash_with_salt(password: &Password, salt: &str) -> (r: Result<
    String,
    UserStoreError,
>)
    ensures
        r matches Ok(h) ==> h@ == argon2id_phc(password@, salt@) && argon2_accepts(h@, password@)
            && has_phc_head(h@, salt@),
        byte_len(password@) <= MAX_PASSWORD_BYTES && is_salt_text(salt@) ==> r is Ok,
        r matches Err(e) ==> e == UserStoreError::UnexpectedError,
{
    match argon2id_hash(password.as_str(), salt) {
        Some(h) => Ok(h),
        None => Err(UserStoreError::UnexpectedError),
    }
}

/// Hashes a password with a fresh random salt: the Argon2id PHC string over
/// the password and that salt.
pub fn compute_password_hash(password: &Password) -> (r: Result<String, UserStoreError>)
    ensures
        r matches Ok(h) ==> argon2_accepts(h@, password@) && exists|salt: Seq<char>|
            is_salt_text(salt) && h@ == argon2id_phc(password@, salt) && has_phc_head(h@, salt),
        byte_len(password@) <= MAX_PASSWORD_BYTES ==> r is Ok,
        r matches Err(e) ==> e == UserStoreError::UnexpectedError,
{
    let salt = generate_salt();
    compute_password_hash_with_salt(password, salt.as_str())
}

/// Two hashes over different salts differ, whatever the passwords.
pub proof fn lemma_salts_tell_hashes_apart(
    first: Seq<char>,
    first_salt: Seq<char>,
    second: Seq<char>,
    second_salt: Seq<char>,
)
    requires
        has_phc_head(first, first_salt),
        has_phc_head(second, second_salt),
        is_salt_text(first_salt),
        is_salt_text(second_salt),
        first_salt != second_salt,
    ensures
        first != second,
{
    let n: int = PHC_PREFIX@.len() as int;
    if first == second {
        assert(phc_head(first_salt).len() == phc_head(second_salt).len());
        assert(phc_head(first_salt) == phc_head(second_salt));
        assert(first_salt =~= phc_head(first_salt).subrange(n, n + 22));
        assert(second_salt =~= phc_head(second_salt).subrange(n, n + 22));
    }
}

/// Succeeds exactly when argon2 accepts the candidate against the stored hash.
pub fn verify_password_hash(expected_password_hash: &str, password_candidate: &Password) -> (r:
    Result<(), UserStoreError>)
    ensures
        r == (if argon2_accepts(expected_password_hash@, password_candidate@) {
            Ok(())
        } else {
            Err(UserStoreError::InvalidCredentials)
        }),
{
    if argon2_verify(expected_password_hash, password_candidate.as_str()) {
        Ok(())
    } else {
        Err(UserStoreError::InvalidCredentials)
    }
}

} // verus!
