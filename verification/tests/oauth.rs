use readwise_autosave::bluesky::oauth::{
    deserialize_key, generate_dpop_key, generate_random_string, key_from_record, serialize_key,
    AuthorizationServer, KeyData, KeyType, LoginAttempt, OAuthError, OAuthRequest,
    OAuthRequestState, OAuthService, OAuthStateStore, ParResponse, PendingOAuthRequest,
};
use readwise_autosave::time::Timestamp;

fn server(issuer: &str) -> AuthorizationServer {
    AuthorizationServer {
        introspection_endpoint: String::new(),
        authorization_endpoint: format!("{}/oauth/authorize", issuer),
        authorization_response_iss_parameter_supported: true,
        client_id_metadata_document_supported: true,
        code_challenge_methods_supported: vec!["S256".to_string()],
        dpop_signing_alg_values_supported: vec!["ES256".to_string()],
        grant_types_supported: vec!["authorization_code".to_string()],
        issuer: issuer.to_string(),
        pushed_authorization_request_endpoint: format!("{}/oauth/par", issuer),
        request_parameter_supported: false,
        require_pushed_authorization_requests: true,
        response_types_supported: vec!["code".to_string()],
        scopes_supported: vec!["atproto".to_string()],
        token_endpoint_auth_methods_supported: vec!["none".to_string()],
        token_endpoint_auth_signing_alg_values_supported: vec!["ES256".to_string()],
        token_endpoint: format!("{}/oauth/token", issuer),
    }
}

fn pending(state: &str, created: i64, expires: i64, dpop: &str) -> PendingOAuthRequest {
    PendingOAuthRequest {
        oauth_request: OAuthRequest {
            oauth_state: state.to_string(),
            issuer: "https://pds.example".to_string(),
            authorization_server: "https://pds.example".to_string(),
            nonce: "nonce".to_string(),
            pkce_verifier: "verifier".to_string(),
            signing_public_key: "sign".to_string(),
            dpop_private_key: dpop.to_string(),
            created_at: Timestamp::new(created, 0),
            expires_at: Timestamp::new(expires, 0),
        },
        authorization_server: server("https://pds.example"),
        created_at: Timestamp::new(created, 0),
    }
}

#[test]
fn test_generate_random_string() {
    let s1 = generate_random_string(32);
    let s2 = generate_random_string(32);
    assert_eq!(s1.len(), 32);
    assert_eq!(s2.len(), 32);
    assert_ne!(s1, s2); // Should be unique
}

#[test]
fn random_string_is_alphanumeric_and_of_any_length() {
    assert_eq!(generate_random_string(0), "");
    let s = generate_random_string(200);
    assert_eq!(s.chars().count(), 200);
    assert!(s.chars().all(|c| c.is_ascii_alphanumeric()));
}

#[test]
fn test_state_store() {
    let mut store = OAuthStateStore::new();

    // Test that we can't retrieve a non-existent state
    assert!(store.take("nonexistent").is_none());
}

#[test]
fn stored_request_is_taken_exactly_once() {
    let mut store = OAuthStateStore::new();
    assert_eq!(store.len(), 0);
    store.store("k".to_string(), pending("k", 100, 200, "x"));
    store.store("other".to_string(), pending("other", 100, 200, "y"));
    assert_eq!(store.len(), 2);
    assert!(store.contains("k"));
    let taken = store.take("k").expect("first take finds it");
    assert_eq!(taken.oauth_request.oauth_state, "k");
    assert_eq!(taken.oauth_request.dpop_private_key, "x");
    assert_eq!(taken.created_at, Timestamp::new(100, 0));
    assert!(store.take("k").is_none());
    assert!(!store.contains("k"));
    assert_eq!(store.len(), 1);
    assert!(store.contains("other"));
}

#[test]
fn storing_again_overwrites() {
    let mut store = OAuthStateStore::new();
    store.store("k".to_string(), pending("k", 100, 200, "first"));
    store.store("k".to_string(), pending("k", 150, 250, "second"));
    assert_eq!(store.len(), 1);
    let taken = store.take("k").unwrap();
    assert_eq!(taken.oauth_request.dpop_private_key, "second");
    assert!(store.take("k").is_none());
}

#[test]
fn sweep_drops_what_has_run_out_and_nothing_else() {
    let mut store = OAuthStateStore::new();
    store.store("old".to_string(), pending("old", 1_000, 0, ""));
    store.store("edge".to_string(), pending("edge", 1_400, 0, ""));
    store.store("fresh".to_string(), pending("fresh", 1_401, 0, ""));
    store.store("future".to_string(), pending("future", 9_000, 0, ""));
    // Ten minutes after 1400: what was made at 1400 or before has run out.
    store.sweep(Timestamp::new(2_000, 0));
    assert!(!store.contains("old"));
    assert!(!store.contains("edge"));
    assert!(store.contains("fresh"));
    assert!(store.contains("future"));
    assert_eq!(store.len(), 2);
    // What is stored after the sweep is not touched by it.
    store.store("late".to_string(), pending("late", 2_000, 0, ""));
    assert!(store.take("late").is_some());
    assert!(store.take("fresh").is_some());
}

#[test]
fn sweep_compares_nanoseconds_within_the_second() {
    let mut store = OAuthStateStore::with_ttl(10);
    let mut a = pending("a", 100, 0, "");
    a.created_at = Timestamp::new(100, 500);
    let mut b = pending("b", 100, 0, "");
    b.created_at = Timestamp::new(100, 501);
    store.store("a".to_string(), a);
    store.store("b".to_string(), b);
    store.sweep(Timestamp::new(110, 500));
    assert!(!store.contains("a"));
    assert!(store.contains("b"));
}

#[test]
fn sweep_at_the_edges_of_time_does_not_overflow() {
    let mut store = OAuthStateStore::with_ttl(u32::MAX);
    store.store("min".to_string(), pending("min", i64::MIN, 0, ""));
    store.store("max".to_string(), pending("max", i64::MAX, 0, ""));
    store.sweep(Timestamp::new(i64::MIN, 0));
    assert!(store.contains("min"));
    assert!(store.contains("max"));
    store.sweep(Timestamp::new(i64::MAX, 0));
    assert!(!store.contains("min"));
    assert!(store.contains("max"));
}

#[test]
fn cleanup_keeps_what_is_fresh_now() {
    let mut store = OAuthStateStore::new();
    store.store("ancient".to_string(), pending("ancient", 0, 0, ""));
    store.store("far".to_string(), pending("far", i64::MAX, 0, ""));
    store.cleanup_expired();
    assert!(!store.contains("ancient"));
    assert!(store.contains("far"));
}

#[test]
fn key_is_written_as_type_byte_and_bytes_in_base64() {
    let key = KeyData { key_type: KeyType::P256Private, bytes: vec![1, 2, 3] };
    assert_eq!(serialize_key(&key), "AAECAw==");
    let public = KeyData { key_type: KeyType::K256Public, bytes: vec![0xff; 4] };
    assert_eq!(serialize_key(&public), "Bf////8=");
    let empty = KeyData { key_type: KeyType::P256Public, bytes: vec![] };
    assert_eq!(serialize_key(&empty), "AQ==");
}

#[test]
fn key_round_trips_for_every_kind() {
    let kinds = [
        KeyType::P256Private,
        KeyType::P256Public,
        KeyType::P384Private,
        KeyType::P384Public,
        KeyType::K256Private,
        KeyType::K256Public,
        KeyType::Ed25519Private,
        KeyType::Ed25519Public,
    ];
    for (i, kind) in kinds.iter().enumerate() {
        let key = KeyData { key_type: *kind, bytes: (0..=255u8).collect() };
        let text = serialize_key(&key);
        assert_eq!(deserialize_key(&text), Ok(key.clone()));
        let mut record = vec![i as u8];
        record.extend_from_slice(&key.bytes);
        assert_eq!(key_from_record(record), Ok(key));
    }
}

#[test]
fn unreadable_keys_are_refused() {
    assert_eq!(
        deserialize_key(""),
        Err(OAuthError::KeySerialization("Empty key data".to_string()))
    );
    assert_eq!(
        deserialize_key("CAEC"),
        Err(OAuthError::KeySerialization("Unknown key type".to_string()))
    );
    assert!(matches!(deserialize_key("not base64!"), Err(OAuthError::KeySerialization(_))));
    assert_eq!(
        key_from_record(vec![]),
        Err(OAuthError::KeySerialization("Empty key data".to_string()))
    );
    assert_eq!(
        key_from_record(vec![200, 1]),
        Err(OAuthError::KeySerialization("Unknown key type".to_string()))
    );
}

#[test]
fn dpop_key_is_a_p256_private_key() {
    let key = generate_dpop_key().unwrap();
    assert_eq!(key.key_type, KeyType::P256Private);
    assert_eq!(key.bytes.len(), 32);
    assert_ne!(generate_dpop_key().unwrap().bytes, key.bytes);
}

#[test]
fn errors_are_put_in_words() {
    assert_eq!(OAuthError::InvalidHandle("x".to_string()).message(), "Invalid handle: x");
    assert_eq!(
        OAuthError::IdentityResolution("x".to_string()).message(),
        "Failed to resolve identity: x"
    );
    assert_eq!(
        OAuthError::ServerDiscovery("x".to_string()).message(),
        "Failed to discover authorization server: x"
    );
    assert_eq!(OAuthError::InitFailed("x".to_string()).message(), "OAuth initialization failed: x");
    assert_eq!(OAuthError::CompleteFailed("x".to_string()).message(), "OAuth completion failed: x");
    assert_eq!(OAuthError::RefreshFailed("x".to_string()).message(), "Token refresh failed: x");
    assert_eq!(OAuthError::InvalidState.message(), "Invalid state parameter");
    assert_eq!(OAuthError::StateExpired.message(), "State expired");
    assert_eq!(OAuthError::MissingCode.message(), "Missing authorization code");
    assert_eq!(OAuthError::HttpClient("x".to_string()).message(), "HTTP client error: x");
    assert_eq!(OAuthError::KeyGeneration("x".to_string()).message(), "Key generation failed: x");
    assert_eq!(
        OAuthError::KeySerialization("x".to_string()).message(),
        "Key serialization failed: x"
    );
}

#[test]
fn pds_is_the_first_endpoint() {
    assert_eq!(
        OAuthService::pick_pds(&vec!["https://a.example".to_string(), "https://b.example".to_string()]),
        Ok("https://a.example".to_string())
    );
    assert_eq!(
        OAuthService::pick_pds(&vec![]),
        Err(OAuthError::IdentityResolution("No PDS endpoint in DID document".to_string()))
    );
}

#[test]
fn store_has_a_time_to_live_of_ten_minutes_unless_told() {
    assert_eq!(OAuthStateStore::new().time_to_live(), 600);
    assert_eq!(OAuthStateStore::with_ttl(1).time_to_live(), 1);
}

#[test]
fn request_stored_at_the_instant_of_a_sweep_outlasts_it() {
    // Stored before the sweep ends.
    let mut store = OAuthStateStore::with_ttl(1);
    store.store("k".to_string(), pending("k", 500, 0, "x"));
    store.sweep(Timestamp::new(500, 0));
    assert_eq!(store.take("k").map(|p| p.oauth_request.dpop_private_key), Some("x".to_string()));
    // Stored after it.
    let mut store = OAuthStateStore::with_ttl(1);
    store.sweep(Timestamp::new(500, 0));
    store.store("k".to_string(), pending("k", 500, 0, "x"));
    assert_eq!(store.take("k").map(|p| p.oauth_request.dpop_private_key), Some("x".to_string()));
}

#[test]
fn prepared_login_has_fresh_secrets() {
    assert!(OAuthService::prepare_login().is_ok());
    let a = OAuthService::prepare_login().unwrap();
    assert_eq!(a.dpop_key.bytes.len(), 32);
    let b = OAuthService::prepare_login().unwrap();
    assert_eq!(a.request_state.state.len(), 32);
    assert_eq!(a.request_state.nonce.len(), 32);
    assert_eq!(a.request_state.scope, "atproto transition:generic");
    assert_eq!(a.dpop_key.key_type, KeyType::P256Private);
    assert!(!a.code_verifier.is_empty());
    assert!(!a.request_state.code_challenge.is_empty());
    assert_ne!(a.request_state.code_challenge, a.code_verifier);
    assert_ne!(a.request_state.state, b.request_state.state);
    assert_ne!(a.request_state.state, a.request_state.nonce);
}

fn service() -> OAuthService {
    OAuthService::new(
        "https://app.example/client metadata.json".to_string(),
        KeyData { key_type: KeyType::P256Private, bytes: vec![9, 9] },
        OAuthStateStore::new(),
    )
}

fn attempt(state: &str) -> LoginAttempt {
    LoginAttempt {
        request_state: OAuthRequestState {
            state: state.to_string(),
            nonce: "n".to_string(),
            code_challenge: "challenge".to_string(),
            scope: "atproto transition:generic".to_string(),
        },
        code_verifier: "verifier".to_string(),
        dpop_key: KeyData { key_type: KeyType::P256Private, bytes: vec![1, 2, 3] },
    }
}

#[test]
fn registered_login_waits_and_gives_the_address() {
    let mut service = service();
    let par = ParResponse { request_uri: "urn:ietf:params:oauth:request_uri:req-1/é".to_string(), expires_in: 90 };
    let url = service.register_login(attempt("s1"), server("https://pds.example"), &par, Timestamp::new(1_000, 5));
    assert_eq!(
        url,
        "https://pds.example/oauth/authorize?request_uri=urn%3Aietf%3Aparams%3Aoauth%3Arequest_uri%3Areq-1%2F%C3%A9&client_id=https%3A%2F%2Fapp.example%2Fclient%20metadata.json"
    );
    assert_eq!(service.state_store.len(), 1);
    let kept = service.state_store.take("s1").unwrap();
    assert_eq!(kept.created_at, Timestamp::new(1_000, 5));
    assert_eq!(kept.authorization_server.token_endpoint, "https://pds.example/oauth/token");
    let r = kept.oauth_request;
    assert_eq!(r.oauth_state, "s1");
    assert_eq!(r.issuer, "https://pds.example");
    assert_eq!(r.authorization_server, "https://pds.example");
    assert_eq!(r.nonce, "n");
    assert_eq!(r.pkce_verifier, "verifier");
    assert_eq!(r.signing_public_key, "AAkJ");
    assert_eq!(r.dpop_private_key, "AAECAw==");
    assert_eq!(r.created_at, Timestamp::new(1_000, 5));
    assert_eq!(r.expires_at, Timestamp::new(1_090, 5));
}

#[test]
fn expiry_stops_at_the_last_second() {
    let mut service = service();
    let par = ParResponse { request_uri: "r".to_string(), expires_in: u64::MAX };
    service.register_login(attempt("s"), server("https://p.example"), &par, Timestamp::new(10, 0));
    let kept = service.state_store.take("s").unwrap();
    assert_eq!(kept.oauth_request.expires_at, Timestamp::new(i64::MAX, 0));
}

#[test]
fn completing_an_unknown_state_is_invalid() {
    let mut service = service();
    assert_eq!(
        service.complete_login("nope", Timestamp::new(0, 0)).err(),
        Some(OAuthError::InvalidState)
    );
}

#[test]
fn completing_hands_out_request_and_key_once() {
    let mut service = service();
    let par = ParResponse { request_uri: "r".to_string(), expires_in: 60 };
    service.register_login(attempt("s"), server("https://p.example"), &par, Timestamp::new(100, 0));
    // At the very instant of expiry the request has not yet run out.
    let done = service.complete_login("s", Timestamp::new(160, 0)).unwrap();
    assert_eq!(done.pending.oauth_request.oauth_state, "s");
    assert_eq!(done.dpop_key, KeyData { key_type: KeyType::P256Private, bytes: vec![1, 2, 3] });
    assert_eq!(
        service.complete_login("s", Timestamp::new(160, 0)).err(),
        Some(OAuthError::InvalidState)
    );
}

#[test]
fn completing_after_expiry_is_expired_and_uses_the_state_up() {
    let mut service = service();
    let par = ParResponse { request_uri: "r".to_string(), expires_in: 60 };
    service.register_login(attempt("s"), server("https://p.example"), &par, Timestamp::new(100, 0));
    assert_eq!(
        service.complete_login("s", Timestamp::new(160, 1)).err(),
        Some(OAuthError::StateExpired)
    );
    assert_eq!(
        service.complete_login("s", Timestamp::new(100, 0)).err(),
        Some(OAuthError::InvalidState)
    );
}

#[test]
fn completing_with_an_unreadable_key_fails() {
    let mut service = service();
    service.state_store.store("s".to_string(), pending("s", 0, 1_000, "%%%"));
    assert!(matches!(
        service.complete_login("s", Timestamp::new(10, 0)),
        Err(OAuthError::KeySerialization(_))
    ));
    assert_eq!(service.state_store.len(), 0);
}
