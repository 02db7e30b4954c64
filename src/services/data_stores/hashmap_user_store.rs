use vstd::prelude::*;
use crate::domain::data_stores::{UserStore, UserStoreError, UserTable};
use crate::domain::email::Email;
use crate::domain::password::Password;
use crate::domain::user::{User, UserRecord};
use crate::services::data_stores::keyed_list::{
    entry_table, lemma_entry_table, position, push_entry, Entry,
};
use crate::services::password_hashing::{compute_password_hash, verify_password_hash};

verus! {

/// An in-memory credential store: each address with its password hash and
/// its second-factor flag.
pub struct HashmapUserStore {
    users: Vec<Entry<(String, bool)>>,
}

impl Default for HashmapUserStore {
    fn default() -> (r: HashmapUserStore)
        ensures
            r.users() == UserTable::empty(),
    {
        HashmapUserStore { users: Vec::new() }
    }
}

impl UserStore for HashmapUserStore {
    open spec fn never_fails(&self) -> bool {
        true
    }

    closed spec fn users(&self) -> UserTable {
        entry_table(self.users@)
    }

    fn add_user(&mut self, user: User) -> (r: Result<(), UserStoreError>) {
        proof {
            lemma_entry_table(self.users@, user.email@);
        }
        if position(&self.users, &user.email).is_some() {
            return Err(UserStoreError::UserAlreadyExists);
        }
        let password_hash = match compute_password_hash(&user.password) {
            Ok(h) => h,
            Err(e) => return Err(e),
        };
        push_entry(&mut self.users, user.email, (password_hash, user.requires_2fa));
        Ok(())
    }

    fn insert_user(&mut self, record: UserRecord) -> (r: Result<(), UserStoreError>) {
        proof {
            lemma_entry_table(self.users@, record.email@);
        }
        if position(&self.users, &record.email).is_some() {
            return Err(UserStoreError::UserAlreadyExists);
        }
        push_entry(&mut self.users, record.email, (record.password_hash, record.requires_2fa));
        Ok(())
    }

    fn get_user(&self, email: Email) -> (r: Result<UserRecord, UserStoreError>) {
        proof {
            lemma_entry_table(self.users@, email@);
        }
        match position(&self.users, &email) {
            Some(i) => {
                let entry = &self.users[i];
                Ok(
                    UserRecord {
                        email: entry.email.duplicate(),
                        password_hash: entry.value.0.clone(),
                        requires_2fa: entry.value.1,
                    },
                )
            },
            None => Err(UserStoreError::UserNotFound),
        }
    }

    fn validate_user(&self, email: Email, password: Password) -> (r: Result<(), UserStoreError>) {
        proof {
            lemma_entry_table(self.users@, email@);
        }
        match position(&self.users, &email) {
            Some(i) => verify_password_hash(self.users[i].value.0.as_str(), &password),
            None => Err(UserStoreError::UserNotFound),
        }
    }
}

} // verus!
