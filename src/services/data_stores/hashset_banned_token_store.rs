use vstd::prelude::*;
use crate::domain::data_stores::{BannedTokenStore, BannedTokenStoreError};

verus! {

/// An in-memory ledger of banned tokens.
pub struct HashsetBannedTokenStore {
    tokens: Vec<String>,
}

/// The tokens that a list holds.
pub open spec fn token_set(s: Seq<String>) -> Set<Seq<char>> {
    Set::new(|t: Seq<char>| exists|i: int| 0 <= i < s.len() && s[i]@ == t)
}

impl HashsetBannedTokenStore {
    /// Whether `token` is in the ledger.
    fn holds(&self, token: &String) -> (r: bool)
        ensures
            r == token_set(self.tokens@).contains(token@),
    {
        let mut i: usize = 0;
        while i < self.tokens.len()
            invariant
                i <= self.tokens@.len(),
                forall|j: int| 0 <= j < i ==> self.tokens@[j]@ != token@,
            decreases self.tokens@.len() - i,
        {
            if self.tokens[i] == *token {
                assert(self.tokens@[i as int]@ == token@);
                return true;
            }
            i = i + 1;
        }
        false
    }
}

impl Default for HashsetBannedTokenStore {
    fn default() -> (r: HashsetBannedTokenStore)
        ensures
            r.banned() == Set::<Seq<char>>::empty(),
    {
        let r = HashsetBannedTokenStore { tokens: Vec::new() };
        assert(token_set(r.tokens@) =~= Set::<Seq<char>>::empty());
        r
    }
}

impl BannedTokenStore for HashsetBannedTokenStore {
    open spec fn never_fails(&self) -> bool {
        true
    }

    closed spec fn banned(&self) -> Set<Seq<char>> {
        token_set(self.tokens@)
    }

    fn add_token(&mut self, token: &str) -> (r: Result<(), BannedTokenStoreError>) {
        let owned = token.to_owned();
        if !self.holds(&owned) {
            self.tokens.push(owned);
            assert forall|t: Seq<char>|
                #[trigger] token_set(self.tokens@).contains(t) <==> token_set(
                    old(self).tokens@,
                ).insert(token@).contains(t) by {
                if token_set(old(self).tokens@).contains(t) {
                    let i = choose|i: int|
                        0 <= i < old(self).tokens@.len() && old(self).tokens@[i]@ == t;
                    assert(self.tokens@[i]@ == t);
                }
                if t == token@ {
                    assert(self.tokens@[self.tokens@.len() - 1]@ == t);
                }
                if token_set(self.tokens@).contains(t) {
                    let i = choose|i: int| 0 <= i < self.tokens@.len() && self.tokens@[i]@ == t;
                    if i < old(self).tokens@.len() {
                        assert(old(self).tokens@[i]@ == t);
                    }
                }
            }
            assert(token_set(self.tokens@) =~= token_set(old(self).tokens@).insert(token@));
        } else {
            assert(token_set(self.tokens@) =~= token_set(old(self).tokens@).insert(token@));
        }
        Ok(())
    }

    fn has_token(&self, token: &str) -> (r: Result<bool, BannedTokenStoreError>) {
        Ok(self.holds(&token.to_owned()))
    }
}

} // verus!
