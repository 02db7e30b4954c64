use vstd::prelude::*;
use crate::domain::data_stores::{
    ChallengeTable, LoginAttemptId, TwoFACode, TwoFACodeStore, TwoFACodeStoreError,
};
use crate::domain::email::Email;
use crate::services::data_stores::keyed_list::{
    drop_all, entry_table, lemma_entry_table, position, push_entry, Entry,
};

verus! {

/// An in-memory store of two-factor challenges, at most one per address.
pub struct HashmapTwoFACodeStore {
    codes: Vec<Entry<(LoginAttemptId, TwoFACode)>>,
}

impl Default for HashmapTwoFACodeStore {
    fn default() -> (r: HashmapTwoFACodeStore)
        ensures
            r.codes() == ChallengeTable::empty(),
    {
        HashmapTwoFACodeStore { codes: Vec::new() }
    }
}

impl TwoFACodeStore for HashmapTwoFACodeStore {
    open spec fn never_fails(&self) -> bool {
        true
    }

    closed spec fn codes(&self) -> ChallengeTable {
        entry_table(self.codes@)
    }

    fn add_code(&mut self, email: Email, login_attempt_id: LoginAttemptId, code: TwoFACode) -> (r:
        Result<(), TwoFACodeStoreError>) {
        drop_all(&mut self.codes, &email);
        push_entry(&mut self.codes, email, (login_attempt_id, code));
        assert(entry_table(self.codes@) =~= old(self).codes().insert(
            email@,
            (login_attempt_id@, code@),
        ));
        Ok(())
    }

    fn remove_code(&mut self, email: &Email) -> (r: Result<(), TwoFACodeStoreError>) {
        proof {
            lemma_entry_table(self.codes@, email@);
        }
        let found = position(&self.codes, email).is_some();
        drop_all(&mut self.codes, email);
        if found {
            Ok(())
        } else {
            Err(TwoFACodeStoreError::LoginAttemptIdNotFound)
        }
    }

    fn get_code(&self, email: &Email) -> (r: Result<(LoginAttemptId, TwoFACode), TwoFACodeStoreError>) {
        proof {
            lemma_entry_table(self.codes@, email@);
        }
        match position(&self.codes, email) {
            Some(i) => {
                let entry = &self.codes[i];
                Ok((entry.value.0.duplicate(), entry.value.1.duplicate()))
            },
            None => Err(TwoFACodeStoreError::LoginAttemptIdNotFound),
        }
    }
}

} // verus!
