pub mod hashmap_two_fa_code_store;
pub mod keyed_list;
pub mod hashmap_user_store;
pub mod hashset_banned_token_store;
pub mod redis_banned_token_store;
pub mod redis_two_fa_code_store;

pub use hashmap_two_fa_code_store::HashmapTwoFACodeStore;
pub use hashmap_user_store::HashmapUserStore;
pub use hashset_banned_token_store::HashsetBannedTokenStore;
