use vstd::prelude::*;
use vstd::string::StringExecFns;
use crate::domain::data_stores::{
    is_hyphenated_uuid, is_two_fa_code, uuid_canonical, LoginAttemptId, TwoFACode,
    TwoFACodeStoreError,
};
use crate::domain::email::Email;

verus! {

/// Prefix of the keys under which challenges are kept in a key-value cache.
pub const TWO_FA_CODE_PREFIX: &'static str = "two_fa_code:";

/// How long a stored challenge lives, in seconds.
pub const TEN_MINUTES_IN_SECONDS: u64 = 600;

/// The cache key of the challenge of `email`.
pub fn get_key(email: &Email) -> (r: String)
    ensures
        r@ == TWO_FA_CODE_PREFIX@ + email@,
{
    let mut key = TWO_FA_CODE_PREFIX.to_string();
    key.append(email.as_str());
    key
}

/// The JSON text that `serde_json` writes for the pair of strings `(a, b)`.
pub uninterp spec fn json_pair_text(a: Seq<char>, b: Seq<char>) -> Seq<char>;

/// The pair of strings that `serde_json` reads from `s`, if it reads one.
pub uninterp spec fn json_pair_read(s: Seq<char>) -> Option<(Seq<char>, Seq<char>)>;

/// Relies on `serde_json::to_string` on a pair of strings: a JSON array of two
/// strings, which cannot fail to serialise.
#[verifier::external_body]
fn write_pair(a: &str, b: &str) -> (r: Option<String>)
    ensures
        r is Some,
        r matches Some(t) ==> t@ == json_pair_text(a@, b@),
{
    serde_json::to_string(&(a, b)).ok()
}

/// Relies on `serde_json::from_str::<(String, String)>`: the result depends on
/// the text alone, and the text that `to_string` wrote for a pair reads back
/// as that pair.
#[verifier::external_body]
fn read_pair(s: &str) -> (r: Option<(String, String)>)
    ensures
        match r {
            Some(p) => json_pair_read(s@) == Some((p.0@, p.1@)),
            None => json_pair_read(s@) is None,
        },
        forall|a: Seq<char>, b: Seq<char>| #[trigger] json_pair_text(a, b) == s@ ==> match r {
            Some(p) => p.0@ == a && p.1@ == b,
            None => false,
        },
{
    serde_json::from_str::<(String, String)>(s).ok()
}

/// The text under which a challenge is cached: the attempt id and the code
/// as a JSON pair.
pub fn encode_challenge(login_attempt_id: &LoginAttemptId, code: &TwoFACode) -> (r: Option<String>)
    ensures
        r matches Some(t) && t@ == json_pair_text(login_attempt_id@, code@),
{
    write_pair(login_attempt_id.as_str(), code.as_str())
}

/// Reads a cached challenge back. Text that is not a JSON pair of strings, or
/// whose parts are not an attempt id and a code, is an unexpected error; a
/// challenge written by `encode_challenge` reads back unchanged.
pub fn decode_challenge(stored: &str) -> (r: Result<(LoginAttemptId, TwoFACode), TwoFACodeStoreError>)
    ensures
        match json_pair_read(stored@) {
            Some((a, b)) => if uuid_canonical(a) is Some && is_two_fa_code(b) {
                r matches Ok(p) && Some(p.0@) == uuid_canonical(a) && p.1@ == b
            } else {
                r == Err::<(LoginAttemptId, TwoFACode), TwoFACodeStoreError>(
                    TwoFACodeStoreError::UnexpectedError,
                )
            },
            None => r == Err::<(LoginAttemptId, TwoFACode), TwoFACodeStoreError>(
                TwoFACodeStoreError::UnexpectedError,
            ),
        },
        forall|a: Seq<char>, b: Seq<char>|
            #[trigger] json_pair_text(a, b) == stored@ && is_hyphenated_uuid(a) && is_two_fa_code(b)
                ==> (r matches Ok(p) && p.0@ == a && p.1@ == b),
{
    let (id_text, code_text) = match read_pair(stored) {
        Some(pair) => pair,
        None => return Err(TwoFACodeStoreError::UnexpectedError),
    };
    let login_attempt_id = match LoginAttemptId::parse(id_text) {
        Ok(id) => id,
        Err(_) => return Err(TwoFACodeStoreError::UnexpectedError),
    };
    let code = match TwoFACode::parse(code_text) {
        Ok(c) => c,
        Err(_) => return Err(TwoFACodeStoreError::UnexpectedError),
    };
    Ok((login_attempt_id, code))
}

} // verus!
