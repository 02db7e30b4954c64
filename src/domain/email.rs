use vstd::prelude::*;

verus! {

/// An address that the `validator` crate accepts as an e-mail address
/// (the HTML5 form of an address, with its local and domain length limits).
pub uninterp spec fn html5_email(s: Seq<char>) -> bool;

/// Relies on `validator::validate_email`: the verdict depends on the text
/// alone, and the function returns `false` at once for an empty string or one
/// without an `@`.
#[verifier::external_body]
fn check_email(s: &str) -> (r: bool)
    ensures
        r == html5_email(s@),
        r ==> s@.contains('@'),
{
    validator::validate_email(s)
}

/// A validated e-mail address; equality is that of its text.
#[derive(Debug, Clone, PartialEq, Eq, Hash)]
pub struct Email(String);

/// Why a string is not an e-mail address.
#[derive(Debug, Clone, Copy, PartialEq, Eq)]
pub enum EmailError {
    InvalidEmail,
}

impl View for Email {
    type V = Seq<char>;

    closed spec fn view(&self) -> Seq<char> {
        self.0@
    }
}

impl Email {
    /// Accepts exactly the addresses that `validator` accepts, keeping the
    /// text as it was given.
    pub fn parse(s: String) -> (r: Result<Email, EmailError>)
        ensures
            r is Ok <==> html5_email(s@),
            r matches Ok(e) ==> e@ == s@,
            r matches Err(e) ==> e == EmailError::InvalidEmail,
            s@.len() == 0 || !s@.contains('@') ==> r is Err,
    {
        if check_email(s.as_str()) {
            Ok(Email(s))
        } else {
            Err(EmailError::InvalidEmail)
        }
    }

    pub fn as_str(&self) -> (r: &str)
        ensures
            r@ == self@,
    {
        self.0.as_str()
    }

    /// Whether two addresses are the same text.
    pub fn same_as(&self, other: &Email) -> (r: bool)
        ensures
            r == (self@ == other@),
    {
        self.0 == other.0
    }

    /// A copy of the address; the text is kept.
    pub fn duplicate(&self) -> (r: Email)
        ensures
            r@ == self@,
    {
        Email(self.0.clone())
    }
}

impl AsRef<str> for Email {
    fn as_ref(&self) -> &str {
        self.as_str()
    }
}

} // verus!
