//! User configuration and credentials.

use vstd::prelude::*;

verus! {

/// `std::path::PathBuf`, carried through without looking inside.
#[verifier::external_type_specification]
#[verifier::external_body]
pub struct ExPathBuf(std::path::PathBuf);

#[derive(Debug, Clone)]
pub struct Config {
    pub general: GeneralConfig,
    pub stream: StreamConfig,
}

#[derive(Debug, Clone)]
pub struct GeneralConfig {
    pub provider: String,
}

#[derive(Debug, Clone)]
pub struct StreamConfig {
    pub player: String,
    /// "1080", "720" or "480".
    pub quality: String,
    /// "sub" or "dub".
    pub translation_type: String,
    /// The watched percentage, 0 to 100, from which an episode counts as seen.
    pub episode_complete_at: u8,
}

#[derive(Debug, Clone)]
pub struct AuthConfig {
    pub anilist_token: Option<String>,
    pub username: Option<String>,
}

impl Default for Config {
    fn default() -> (config: Config)
        ensures
            is_default_config(config),
    {
        Config {
            general: GeneralConfig { provider: "allanime".to_owned() },
            stream: StreamConfig {
                player: "mpv".to_owned(),
                quality: "1080".to_owned(),
                translation_type: "sub".to_owned(),
                episode_complete_at: 85,
            },
        }
    }
}

impl AuthConfig {
    /// Credentials of a user who has not logged in.
    pub fn anonymous() -> (auth: AuthConfig)
        ensures
            auth.anilist_token is None,
            auth.username is None,
    {
        AuthConfig { anilist_token: None, username: None }
    }

    /// The token and user name, when both are stored.
    pub fn credentials(&self) -> (pair: Option<(&str, &str)>)
        ensures
            match pair {
                Some((token, username)) => self.anilist_token is Some
                    && self.username is Some
                    && token@ == self.anilist_token->0@
                    && username@ == self.username->0@,
                None => self.anilist_token is None || self.username is None,
            },
    {
        match (&self.anilist_token, &self.username) {
            (Some(token), Some(username)) => Some((token.as_str(), username.as_str())),
            _ => None,
        }
    }
}

/// Whether `config` is the configuration that a new installation starts
/// with.
pub open spec fn is_default_config(config: Config) -> bool {
    &&& config.general.provider@ == "allanime"@
    &&& config.stream.player@ == "mpv"@
    &&& config.stream.quality@ == "1080"@
    &&& config.stream.translation_type@ == "sub"@
    &&& config.stream.episode_complete_at == 85
}

/// The loaded configuration together with the places it is stored at.
pub struct ConfigManager {
    pub config_path: std::path::PathBuf,
    pub auth_path: std::path::PathBuf,
    pub config: Config,
    pub auth: AuthConfig,
}

impl ConfigManager {
    /// Puts the configuration together from what the two files hold. For
    /// each file, `None` says that there is no such file, `Some(None)` that
    /// it could not be read as what it should hold, and `Some(Some(..))`
    /// gives what it holds.
    ///
    /// What a file holds is taken as it is. A missing or unreadable
    /// configuration gives the default one, and the flag that comes back
    /// says whether the default is to be written to the file: only where
    /// there was none. Missing or unreadable credentials are those of a user
    /// who has not logged in.
    pub fn new(
        config_path: std::path::PathBuf,
        auth_path: std::path::PathBuf,
        stored_config: Option<Option<Config>>,
        stored_auth: Option<Option<AuthConfig>>,
    ) -> (loaded: (ConfigManager, bool))
        ensures
            loaded.0.config_path == config_path,
            loaded.0.auth_path == auth_path,
            match stored_config {
                Some(Some(config)) => loaded.0.config == config,
                _ => is_default_config(loaded.0.config),
            },
            match stored_auth {
                Some(Some(auth)) => loaded.0.auth == auth,
                _ => loaded.0.auth.anilist_token is None && loaded.0.auth.username is None,
            },
            loaded.1 == (stored_config is None),
    {
        let write_default = stored_config.is_none();
        let config = match stored_config {
            Some(Some(config)) => config,
            _ => Config::default(),
        };
        let auth = match stored_auth {
            Some(Some(auth)) => auth,
            _ => AuthConfig::anonymous(),
        };
        (ConfigManager { config_path, auth_path, config, auth }, write_default)
    }
}

} // verus!
