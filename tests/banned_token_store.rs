use auth_service::domain::data_stores::BannedTokenStore;
use auth_service::services::HashsetBannedTokenStore;

#[test]
fn hashset_banned_token_store_test_add_token() {
    let mut store = HashsetBannedTokenStore::default();
    assert!(store.add_token("test").is_ok());
    assert_eq!(store.has_token("test"), Ok(true));
}

#[test]
fn hashset_banned_token_store_test_has_token() {
    let mut store = HashsetBannedTokenStore::default();
    assert_eq!(store.has_token("test"), Ok(false));

    store.add_token("test").unwrap();
    assert_eq!(store.has_token("test"), Ok(true));
}

#[test]
fn banned_token_store_add_is_idempotent() {
    let mut store = HashsetBannedTokenStore::default();
    assert!(store.add_token("t1").is_ok());
    assert!(store.add_token("t1").is_ok());
    assert_eq!(store.has_token("t1"), Ok(true));
    assert_eq!(store.has_token("t2"), Ok(false));
}
