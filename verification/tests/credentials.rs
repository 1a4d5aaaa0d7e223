use deckshot::credentials::{
    credential_state, credential_step, delivery_token_plan, CredError, CredentialEvent,
    CredentialState, CredentialStore, TokenPlan, TokenSet,
};

#[test]
fn load_before_save_is_not_authorized() {
    let store = CredentialStore::new();
    assert!(matches!(store.load_token("dropbox"), Err(CredError::NotAuthorized)));
}

#[test]
fn save_then_load_returns_value() {
    let mut store = CredentialStore::new();
    store.save_token("dropbox", "blob-1");
    assert_eq!(store.load_token("dropbox").unwrap(), "blob-1");
    assert!(matches!(store.load_token("onedrive"), Err(CredError::NotAuthorized)));
}

#[test]
fn newest_save_shadows_older_value() {
    let mut store = CredentialStore::new();
    store.save_token("imgur", "old");
    store.save_token("other", "kept");
    store.save_token("imgur", "new");
    assert_eq!(store.load_token("imgur").unwrap(), "new");
    assert_eq!(store.load_token("other").unwrap(), "kept");
}

#[test]
fn token_set_round_trip() {
    let tokens = TokenSet {
        access: "access-token-value".to_string(),
        refresh: "refresh-token-value".to_string(),
        expiry: 1209600,
    };
    let encoded = tokens.encode();
    let decoded = TokenSet::decode(encoded.as_str()).unwrap();
    assert_eq!(decoded.access, tokens.access);
    assert_eq!(decoded.refresh, tokens.refresh);
    assert_eq!(decoded.expiry, tokens.expiry);
}

#[test]
fn token_set_decode_rejects_other_shapes() {
    assert!(TokenSet::decode("just-one-line").is_none());
    assert!(TokenSet::decode("a\nb").is_none());
    assert!(TokenSet::decode("a\nb\nnot-a-number").is_none());
    assert!(TokenSet::decode("a\nb\n12\nextra").is_none());
}

#[test]
fn refresh_replaces_whole_triple() {
    let mut store = CredentialStore::new();
    let old_tokens = TokenSet {
        access: "access-old".to_string(),
        refresh: "refresh-old".to_string(),
        expiry: 100,
    };
    let new_tokens = TokenSet {
        access: "access-new".to_string(),
        refresh: "refresh-new".to_string(),
        expiry: 200,
    };
    store.save_token_set("imgur-tokens", &old_tokens);
    // before the single-update refresh: the complete old triple
    let read = store.load_token_set("imgur-tokens").unwrap();
    assert_eq!((read.access.as_str(), read.refresh.as_str(), read.expiry), (
        "access-old",
        "refresh-old",
        100,
    ));
    store.save_token_set("imgur-tokens", &new_tokens);
    // after it: the complete new triple, never new access beside old refresh
    let read = store.load_token_set("imgur-tokens").unwrap();
    assert_eq!((read.access.as_str(), read.refresh.as_str(), read.expiry), (
        "access-new",
        "refresh-new",
        200,
    ));
}

#[test]
fn malformed_credential_value_is_distinguished() {
    let mut store = CredentialStore::new();
    store.save_token("imgur-tokens", "not a token set");
    assert!(matches!(store.load_token_set("imgur-tokens"), Err(CredError::Malformed)));
    assert!(matches!(store.load_token_set("absent"), Err(CredError::NotAuthorized)));
}

#[test]
fn credential_lifecycle_states() {
    assert!(matches!(credential_state(&None, 50), CredentialState::NoCredentials));
    let tokens = TokenSet {
        access: "a".to_string(),
        refresh: "r".to_string(),
        expiry: 100,
    };
    let loaded = Some(tokens);
    assert!(matches!(credential_state(&loaded, 50), CredentialState::Valid));
    assert!(matches!(credential_state(&loaded, 100), CredentialState::Expired));
    assert!(matches!(credential_state(&loaded, 150), CredentialState::Expired));
}

#[test]
fn credential_lifecycle_steps() {
    let s = credential_step(CredentialState::NoCredentials, &CredentialEvent::Authorized);
    assert!(matches!(s, CredentialState::Valid));
    let s = credential_step(s, &CredentialEvent::Clock { expired: false });
    assert!(matches!(s, CredentialState::Valid));
    let s = credential_step(s, &CredentialEvent::Clock { expired: true });
    assert!(matches!(s, CredentialState::Expired));
    let s = credential_step(s, &CredentialEvent::RefreshStarted);
    assert!(matches!(s, CredentialState::Refreshing));
    let failed = credential_step(
        credential_step(CredentialState::Expired, &CredentialEvent::RefreshStarted),
        &CredentialEvent::RefreshFailed,
    );
    assert!(matches!(failed, CredentialState::Expired));
    let s = credential_step(s, &CredentialEvent::RefreshSucceeded);
    assert!(matches!(s, CredentialState::Valid));
    // an unrelated pairing changes nothing
    let s = credential_step(CredentialState::NoCredentials, &CredentialEvent::RefreshFailed);
    assert!(matches!(s, CredentialState::NoCredentials));
}

#[test]
fn delivery_plan_follows_state() {
    assert!(matches!(delivery_token_plan(&None, 0), TokenPlan::NotAuthorized));
    let tokens = TokenSet {
        access: "a".to_string(),
        refresh: "r".to_string(),
        expiry: 100,
    };
    let loaded = Some(tokens);
    assert!(matches!(delivery_token_plan(&loaded, 99), TokenPlan::UseCurrent));
    assert!(matches!(delivery_token_plan(&loaded, 100), TokenPlan::RefreshFirst));
}
