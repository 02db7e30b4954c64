pub mod data_stores;
pub mod email;
pub mod error;
pub mod password;
pub mod user;

pub use data_stores::{
    BannedTokenStore, BannedTokenStoreError, LoginAttemptId, TwoFACode, TwoFACodeStore,
    TwoFACodeStoreError, UserStore, UserStoreError,
};
pub use email::{Email, EmailError};
pub use error::AuthAPIError;
pub use password::{Password, PasswordError};
pub use user::{User, UserRecord};
