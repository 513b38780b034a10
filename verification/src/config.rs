//! The settings of the application, and what they are where nothing is set.

use vstd::prelude::*;

verus! {

/// The address the server listens on where none is set.
pub const DEFAULT_SERVER_ADDRESS: &'static str = "0.0.0.0:3000";

/// The settings of the application.
#[derive(Debug, Clone)]
pub struct Config {
    /// The address the server listens on, as `host:port`.
    pub server_address: String,
    /// Where the database is.
    pub database_url: String,
    /// The handle of the account that answers direct messages.
    pub bluesky_bot_handle: Option<String>,
    /// The password of that account.
    pub bluesky_bot_password: Option<String>,
    /// The client identifier for sign-in: the URL of the client's metadata.
    pub oauth_client_id: Option<String>,
    /// Where sign-in comes back to.
    pub oauth_redirect_uri: Option<String>,
    /// Seconds between two polls of a user's bookmarks.
    pub bookmark_poll_interval_secs: u64,
    /// Seconds between two polls of the direct messages.
    pub dm_poll_interval_secs: u64,
}

/// The address the server listens on where none is set: port 3000 on every
/// interface.
pub fn default_server_address() -> (address: String)
    ensures
        address@ == DEFAULT_SERVER_ADDRESS@,
{
    String::from_str(DEFAULT_SERVER_ADDRESS)
}

/// The seconds between two polls of a user's bookmarks where none are set.
pub fn default_bookmark_poll_interval() -> (secs: u64)
    ensures
        secs == 30,
{
    30
}

/// The seconds between two polls of the direct messages where none are set.
pub fn default_dm_poll_interval() -> (secs: u64)
    ensures
        secs == 10,
{
    10
}

impl Config {
    /// The settings for a database at `database_url`, with everything else
    /// as it is where nothing is set.
    pub fn with_defaults(database_url: String) -> (config: Config)
        ensures
            config.server_address@ == DEFAULT_SERVER_ADDRESS@,
            config.database_url == database_url,
            config.bluesky_bot_handle is None,
            config.bluesky_bot_password is None,
            config.oauth_client_id is None,
            config.oauth_redirect_uri is None,
            config.bookmark_poll_interval_secs == 30,
            config.dm_poll_interval_secs == 10,
    {
        Config {
            server_address: default_server_address(),
            database_url,
            bluesky_bot_handle: None,
            bluesky_bot_password: None,
            oauth_client_id: None,
            oauth_redirect_uri: None,
            bookmark_poll_interval_secs: default_bookmark_poll_interval(),
            dm_poll_interval_secs: default_dm_poll_interval(),
        }
    }

    /// The client identifier for sign-in: the one that is set, or the
    /// placeholder where none is.
    pub open spec fn client_id_text(self) -> Seq<char> {
        match self.oauth_client_id {
            Some(id) => id@,
            None => "https://example.com/oauth/client-metadata.json"@,
        }
    }

    /// Where sign-in comes back to: the address that is set, or the
    /// callback path on the server's own address where none is.
    pub open spec fn redirect_uri_text(self) -> Seq<char> {
        match self.oauth_redirect_uri {
            Some(uri) => uri@,
            None => "http://"@ + self.server_address@ + "/auth/callback"@,
        }
    }

    /// The client identifier for sign-in.
    pub fn client_id(&self) -> (id: String)
        ensures
            id@ == self.client_id_text(),
    {
        match &self.oauth_client_id {
            Some(id) => id.clone(),
            None => String::from_str("https://example.com/oauth/client-metadata.json"),
        }
    }

    /// Where sign-in comes back to.
    pub fn redirect_uri(&self) -> (uri: String)
        ensures
            uri@ == self.redirect_uri_text(),
    {
        match &self.oauth_redirect_uri {
            Some(uri) => uri.clone(),
            None => {
                let mut uri = String::from_str("http://");
                uri.append(self.server_address.as_str());
                uri.append("/auth/callback");
                uri
            },
        }
    }
}

} // verus!
