pub mod data_stores;
pub mod password_hashing;

pub use data_stores::{HashmapTwoFACodeStore, HashmapUserStore, HashsetBannedTokenStore};
