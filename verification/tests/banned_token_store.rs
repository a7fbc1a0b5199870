use auth_service::services::data_stores::HashsetBannedTokenStore;

#[test]
fn test_add_token() {
    let mut store = HashsetBannedTokenStore::default();
    let token = "test_token_123".to_string();

    let result = store.add_token(token.clone());
    assert!(result.is_ok());

    let is_banned = store.contains_token(&token).unwrap();
    assert!(is_banned);
}

#[test]
fn test_contains_token_returns_false_for_unknown_token() {
    let store = HashsetBannedTokenStore::default();

    let is_banned = store.contains_token("unknown_token").unwrap();
    assert!(!is_banned);
}

#[test]
fn test_add_multiple_tokens() {
    let mut store = HashsetBannedTokenStore::default();
    let token1 = "token1".to_string();
    let token2 = "token2".to_string();
    let token3 = "token3".to_string();

    store.add_token(token1.clone()).unwrap();
    store.add_token(token2.clone()).unwrap();
    store.add_token(token3.clone()).unwrap();

    assert!(store.contains_token(&token1).unwrap());
    assert!(store.contains_token(&token2).unwrap());
    assert!(store.contains_token(&token3).unwrap());
    assert!(!store.contains_token("unknown").unwrap());
}

#[test]
fn test_add_duplicate_token() {
    let mut store = HashsetBannedTokenStore::default();
    let token = "duplicate_token".to_string();

    store.add_token(token.clone()).unwrap();
    store.add_token(token.clone()).unwrap();

    // Should still be banned (set semantics: no duplicates)
    assert!(store.contains_token(&token).unwrap());
}
