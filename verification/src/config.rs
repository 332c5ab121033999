use vstd::prelude::*;

verus! {

/// Process configuration: messaging-platform credentials, store locations,
/// the relying party's OAuth settings and the server's bind address.
#[derive(Clone, Debug)]
pub struct BotConfig {
    pub email: String,
    pub password: String,
    pub deltachat_db: String,
    pub oauth_db: String,
    pub listen_addr: String,
    pub oauth: OAuthConfig,
    pub enable_request_logging: Option<bool>,
    pub static_dir: Option<String>,
    pub log_level: Option<String>,
}

/// The relying party's registered client credentials and callback.
#[derive(Clone, Debug)]
pub struct OAuthConfig {
    pub client_id: String,
    pub client_secret: String,
    pub redirect_uri: String,
}

/// Settings for the forum-notification API client.
#[derive(Clone, Debug)]
pub struct NotifierConfig {
    pub base_url: String,
    pub api_username: String,
}

} // verus!
