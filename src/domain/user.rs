use vstd::prelude::*;
use crate::domain::email::Email;
use crate::domain::password::Password;

verus! {

/// What a signup hands to a credential store: the address, the plaintext
/// password (hashed by the store before it keeps anything) and whether the
/// account asks for a second factor.
#[derive(Debug, Clone)]
pub struct User {
    pub email: Email,
    pub password: Password,
    pub requires_2fa: bool,
}

impl User {
    pub fn new(email: Email, password: Password, requires_2fa: bool) -> (r: User)
        ensures
            r.email@ == email@,
            r.password@ == password@,
            r.requires_2fa == requires_2fa,
    {
        User { email, password, requires_2fa }
    }
}

/// A user as a credential store keeps it: the password only as its hash.
#[derive(Debug, Clone)]
pub struct UserRecord {
    pub email: Email,
    pub password_hash: String,
    pub requires_2fa: bool,
}

impl UserRecord {
    pub fn duplicate(&self) -> (r: UserRecord)
        ensures
            r.email@ == self.email@,
            r.password_hash@ == self.password_hash@,
            r.requires_2fa == self.requires_2fa,
    {
        UserRecord {
            email: self.email.duplicate(),
            password_hash: self.password_hash.clone(),
            requires_2fa: self.requires_2fa,
        }
    }
}

} // verus!
