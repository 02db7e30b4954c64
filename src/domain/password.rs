use vstd::prelude::*;
use vstd::utf8::encode_utf8;

verus! {

/// Fewest bytes a password may hold.
pub const MIN_PASSWORD_LENGTH: usize = 8;

/// A plaintext password that passed the length rule. It is only handled at the
/// boundary (signup, login); stores keep a hash of it, never the text.
#[derive(Debug, Clone, PartialEq, Eq, Hash)]
pub struct Password(String);

/// Why a string is not a password.
#[derive(Debug, Clone, Copy, PartialEq, Eq)]
pub enum PasswordError {
    InvalidPassword,
}

/// Length of a string in bytes, as `str::len` counts it.
pub open spec fn byte_len(s: Seq<char>) -> nat {
    encode_utf8(s).len()
}

/// A string is acceptable as a password when it holds at least
/// `MIN_PASSWORD_LENGTH` bytes.
pub open spec fn is_valid_password(s: Seq<char>) -> bool {
    byte_len(s) >= MIN_PASSWORD_LENGTH
}

impl View for Password {
    type V = Seq<char>;

    closed spec fn view(&self) -> Seq<char> {
        self.0@
    }
}

impl Password {
    /// Accepts `pass` when it holds at least eight bytes; an empty string is
    /// therefore rejected too.
    pub fn parse(pass: String) -> (r: Result<Password, PasswordError>)
        ensures
            r is Ok <==> is_valid_password(pass@),
            r matches Ok(p) ==> p@ == pass@,
            r matches Err(e) ==> e == PasswordError::InvalidPassword,
    {
        let n = pass.as_str().as_bytes().len();
        if pass.as_str().is_empty() || n < MIN_PASSWORD_LENGTH {
            Err(PasswordError::InvalidPassword)
        } else {
            Ok(Password(pass))
        }
    }

    pub fn as_str(&self) -> (r: &str)
        ensures
            r@ == self@,
    {
        self.0.as_str()
    }
}

impl AsRef<str> for Password {
    fn as_ref(&self) -> &str {
        self.as_str()
    }
}

} // verus!
