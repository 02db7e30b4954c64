use vstd::prelude::*;
use vstd::string::StringExecFns;

verus! {

/// Prefix of the keys under which banned tokens are kept in a key-value
/// cache; it keeps them apart from other data.
pub const BANNED_TOKEN_KEY_PREFIX: &'static str = "banned_token:";

/// The cache key of a banned token.
pub fn get_key(token: &str) -> (r: String)
    ensures
        r@ == BANNED_TOKEN_KEY_PREFIX@ + token@,
{
    let mut key = BANNED_TOKEN_KEY_PREFIX.to_string();
    key.append(token);
    key
}

} // verus!
