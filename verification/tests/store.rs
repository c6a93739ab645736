use mcp_oauth::oauth::store::{OauthStore, StoreError};
use mcp_oauth::oauth::types::{ClientDescriptor, ThirdPartyToken, Timestamp};

fn upstream() -> ThirdPartyToken {
    ThirdPartyToken {
        access_token: "tp-token-1".to_string(),
        token_type: "Bearer".to_string(),
        expires_in: 3600,
        refresh_token: "tp-refresh-1".to_string(),
        scope: Some("profile".to_string()),
    }
}

#[test]
fn new_store_holds_the_bootstrap_client() {
    let store = OauthStore::new();
    let client = store
        .validate_client("mcp-client", "http://localhost:8080/callback")
        .expect("bootstrap client");
    assert_eq!(client.client_id, "mcp-client");
    assert_eq!(client.client_secret.as_deref(), Some("mcp-client-secret"));
    assert_eq!(client.redirect_uri, "http://localhost:8080/callback");
    assert_eq!(client.scopes, vec!["profile".to_string(), "email".to_string()]);
}

#[test]
fn new_store_has_no_sessions_and_no_tokens() {
    let store = OauthStore::new();
    assert!(store.get_session("").is_none());
    assert!(store.get_session("s1").is_none());
    assert!(store.validate_token("mcp-token-1").is_none());
}

#[test]
fn validate_client_rejects_unknown_ids_and_foreign_uris() {
    let store = OauthStore::new();
    assert!(store.validate_client("nobody", "http://localhost:8080/callback").is_none());
    assert!(store.validate_client("", "http://localhost:8080/callback").is_none());
    assert!(store.validate_client("mcp-client", "http://evil/callback").is_none());
    assert!(store.validate_client("mcp-client", "http://localhost:8080/callback/more").is_none());
}

#[test]
fn validate_client_accepts_a_part_of_the_registered_uri() {
    let store = OauthStore::new();
    assert!(store.validate_client("mcp-client", "localhost:8080").is_some());
    assert!(store.validate_client("mcp-client", "").is_some());
}

#[test]
fn register_client_replaces_a_client_with_the_same_id() {
    let mut store = OauthStore::new();
    store.register_client(ClientDescriptor {
        client_id: "mcp-client".to_string(),
        client_secret: None,
        redirect_uri: "http://cb/x".to_string(),
        scopes: Vec::new(),
    });
    assert!(store.validate_client("mcp-client", "http://localhost:8080/callback").is_none());
    let client = store.validate_client("mcp-client", "http://cb/x").expect("replaced");
    assert_eq!(client.client_secret, None);
    assert!(client.scopes.is_empty());
}

#[test]
fn created_session_has_no_token_yet() {
    let mut store = OauthStore::new();
    let id = store.create_auth_session_at(
        "mcp-client".to_string(),
        Some("profile".to_string()),
        None,
        "s1".to_string(),
        Timestamp { seconds: 1700000000, nanos: 5 },
    );
    assert_eq!(id, "s1");
    let session = store.get_session("s1").expect("stored");
    assert_eq!(session.session_id, "s1");
    assert_eq!(session.client_id, "mcp-client");
    assert_eq!(session.scope.as_deref(), Some("profile"));
    assert_eq!(session.state, None);
    assert_eq!(session.created_at, Timestamp { seconds: 1700000000, nanos: 5 });
    assert!(session.third_party_token.is_none());
}

#[test]
fn created_session_is_stamped_by_the_clock() {
    let mut store = OauthStore::new();
    let id = store.create_auth_session("c".to_string(), None, Some("st".to_string()), "s1".to_string());
    assert_eq!(id, "s1");
    let session = store.get_session("s1").expect("stored");
    assert_eq!(session.state.as_deref(), Some("st"));
    assert!(session.created_at.seconds > 1_600_000_000);
    assert!(session.third_party_token.is_none());
}

#[test]
fn colliding_session_id_overwrites() {
    let mut store = OauthStore::new();
    let at = Timestamp { seconds: 1, nanos: 0 };
    store.create_auth_session_at("first".to_string(), None, None, "s1".to_string(), at);
    assert!(store.update_auth_session_token("s1", upstream()).is_ok());
    store.create_auth_session_at("second".to_string(), None, None, "s1".to_string(), at);
    let session = store.get_session("s1").expect("stored");
    assert_eq!(session.client_id, "second");
    assert!(session.third_party_token.is_none());
}

#[test]
fn attach_token_needs_a_session() {
    let mut store = OauthStore::new();
    assert_eq!(store.update_auth_session_token("missing", upstream()), Err(StoreError::SessionNotFound));
    assert!(store.get_session("missing").is_none());
}

#[test]
fn attach_token_sets_and_overwrites() {
    let mut store = OauthStore::new();
    let at = Timestamp { seconds: 1, nanos: 0 };
    store.create_auth_session_at("c".to_string(), Some("sc".to_string()), Some("st".to_string()), "s1".to_string(), at);
    assert_eq!(store.update_auth_session_token("s1", upstream()), Ok(()));
    let session = store.get_session("s1").expect("stored");
    assert_eq!(session.client_id, "c");
    assert_eq!(session.scope.as_deref(), Some("sc"));
    assert_eq!(session.state.as_deref(), Some("st"));
    assert_eq!(session.created_at, at);
    assert_eq!(session.third_party_token.as_ref().map(|t| t.access_token.as_str()), Some("tp-token-1"));
    let mut second = upstream();
    second.access_token = "tp-token-2".to_string();
    assert_eq!(store.update_auth_session_token("s1", second), Ok(()));
    let session = store.get_session("s1").expect("stored");
    assert_eq!(session.third_party_token.as_ref().map(|t| t.access_token.as_str()), Some("tp-token-2"));
}

#[test]
fn issue_fails_without_session_or_token() {
    let mut store = OauthStore::new();
    assert_eq!(
        store.create_mcp_token_with("missing", "a", "r").err(),
        Some(StoreError::SessionNotFound)
    );
    store.create_auth_session_at("c".to_string(), None, None, "s1".to_string(), Timestamp { seconds: 1, nanos: 0 });
    assert_eq!(
        store.create_mcp_token_with("s1", "a", "r").err(),
        Some(StoreError::NoThirdPartyToken)
    );
    assert_eq!(store.create_mcp_token("s1").err(), Some(StoreError::NoThirdPartyToken));
    assert!(store.validate_token("mcp-token-a").is_none());
}

#[test]
fn issue_builds_and_stores_the_token() {
    let mut store = OauthStore::new();
    store.create_auth_session_at("c".to_string(), Some("sc".to_string()), None, "s1".to_string(), Timestamp { seconds: 1, nanos: 0 });
    store.update_auth_session_token("s1", upstream()).expect("session exists");
    let token = store.create_mcp_token_with("s1", "A", "R").expect("issued");
    assert_eq!(token.access_token, "mcp-token-A");
    assert_eq!(token.token_type, "Bearer");
    assert_eq!(token.expires_in, 3600);
    assert_eq!(token.refresh_token, "mcp-refresh-R");
    assert_eq!(token.scope.as_deref(), Some("sc"));
    assert_eq!(token.client_id, "c");
    assert_eq!(token.third_party_token.access_token, "tp-token-1");
    assert_eq!(token.third_party_token.refresh_token, "tp-refresh-1");
    let stored = store.validate_token("mcp-token-A").expect("stored");
    assert_eq!(stored.client_id, "c");
    assert_eq!(stored.refresh_token, "mcp-refresh-R");
    assert!(store.validate_token("mcp-token-B").is_none());
    assert!(store.validate_token("A").is_none());
}

#[test]
fn issue_with_random_ids_gives_distinct_tokens() {
    let mut store = OauthStore::new();
    store.create_auth_session_at("c".to_string(), None, None, "s1".to_string(), Timestamp { seconds: 1, nanos: 0 });
    store.update_auth_session_token("s1", upstream()).expect("session exists");
    let first = store.create_mcp_token("s1").expect("issued");
    let second = store.create_mcp_token("s1").expect("issued");
    assert_eq!(first.access_token.len(), "mcp-token-".len() + 36);
    assert_eq!(first.refresh_token.len(), "mcp-refresh-".len() + 36);
    assert!(first.access_token.starts_with("mcp-token-"));
    assert!(first.refresh_token.starts_with("mcp-refresh-"));
    assert_ne!(first.access_token, second.access_token);
    assert_ne!(first.access_token["mcp-token-".len()..], first.refresh_token["mcp-refresh-".len()..]);
    assert!(store.validate_token(&first.access_token).is_some());
    assert!(store.validate_token(&second.access_token).is_some());
}

#[test]
fn store_error_messages() {
    assert_eq!(StoreError::SessionNotFound.message(), "Session not found");
    assert_eq!(StoreError::NoThirdPartyToken.message(), "No third-party token available for session");
}
