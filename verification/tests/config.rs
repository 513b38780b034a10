use readwise_autosave::config::{
    default_bookmark_poll_interval, default_dm_poll_interval, default_server_address, Config,
};
use readwise_autosave::services::bookmark_sync::BookmarkSyncConfig;
use std::time::Duration;

#[test]
fn test_default_values() {
    assert_eq!(default_server_address(), "0.0.0.0:3000");
    assert_eq!(default_bookmark_poll_interval(), 30);
    assert_eq!(default_dm_poll_interval(), 10);
}

#[test]
fn test_default_config() {
    let config = BookmarkSyncConfig::default();
    assert_eq!(config.poll_interval(), Duration::from_secs(30));
}

#[test]
fn config_with_defaults_fills_everything_but_the_database() {
    let config = Config::with_defaults("postgres://db".to_string());
    assert_eq!(config.server_address, "0.0.0.0:3000");
    assert_eq!(config.database_url, "postgres://db");
    assert_eq!(config.bookmark_poll_interval_secs, 30);
    assert_eq!(config.dm_poll_interval_secs, 10);
    assert!(config.bluesky_bot_handle.is_none());
    assert!(config.oauth_client_id.is_none());
    assert_eq!(config.client_id(), "https://example.com/oauth/client-metadata.json");
    assert_eq!(config.redirect_uri(), "http://0.0.0.0:3000/auth/callback");
}

#[test]
fn config_prefers_what_is_set() {
    let mut config = Config::with_defaults("postgres://db".to_string());
    config.oauth_client_id = Some("https://app.example/client.json".to_string());
    config.oauth_redirect_uri = Some("https://app.example/cb".to_string());
    assert_eq!(config.client_id(), "https://app.example/client.json");
    assert_eq!(config.redirect_uri(), "https://app.example/cb");
}
