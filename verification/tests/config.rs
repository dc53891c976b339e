use std::path::PathBuf;

use ani_l::config::{AuthConfig, Config, ConfigManager, GeneralConfig, StreamConfig};
use ani_l::registry::WatchStatus;

#[test]
fn default_config() {
    let config = Config::default();
    assert_eq!(config.general.provider, "allanime");
    assert_eq!(config.stream.player, "mpv");
    assert_eq!(config.stream.quality, "1080");
    assert_eq!(config.stream.translation_type, "sub");
    assert_eq!(config.stream.episode_complete_at, 85);
}

#[test]
fn anonymous_has_no_credentials() {
    let auth = AuthConfig::anonymous();
    assert!(auth.anilist_token.is_none());
    assert!(auth.username.is_none());
}

#[test]
fn watch_status_names() {
    assert_eq!(format!("{:?}", WatchStatus::CURRENT), "CURRENT");
    assert_eq!(format!("{:?}", WatchStatus::REPEATING), "REPEATING");
    assert_ne!(WatchStatus::PLANNING, WatchStatus::COMPLETED);
}

fn custom() -> Config {
    Config {
        general: GeneralConfig { provider: "other".to_string() },
        stream: StreamConfig {
            player: "vlc".to_string(),
            quality: "720".to_string(),
            translation_type: "dub".to_string(),
            episode_complete_at: 90,
        },
    }
}

fn load(config: Option<Option<Config>>, auth: Option<Option<AuthConfig>>) -> (ConfigManager, bool) {
    ConfigManager::new(PathBuf::from("/c/config.toml"), PathBuf::from("/c/auth.toml"), config, auth)
}

#[test]
fn missing_configuration_is_the_default_and_is_written() {
    let (manager, write) = load(None, None);
    assert!(write);
    assert_eq!(manager.config.general.provider, "allanime");
    assert_eq!(manager.config.stream.episode_complete_at, 85);
    assert!(manager.auth.anilist_token.is_none());
    assert!(manager.auth.username.is_none());
    assert_eq!(manager.config_path, PathBuf::from("/c/config.toml"));
    assert_eq!(manager.auth_path, PathBuf::from("/c/auth.toml"));
}

#[test]
fn unreadable_configuration_is_the_default_and_is_left_alone() {
    let (manager, write) = load(Some(None), Some(None));
    assert!(!write);
    assert_eq!(manager.config.stream.player, "mpv");
    assert_eq!(manager.config.stream.quality, "1080");
    assert_eq!(manager.config.stream.translation_type, "sub");
    assert!(manager.auth.credentials().is_none());
}

#[test]
fn stored_configuration_is_taken_as_it_is() {
    let auth = AuthConfig { anilist_token: Some("t".to_string()), username: Some("u".to_string()) };
    let (manager, write) = load(Some(Some(custom())), Some(Some(auth)));
    assert!(!write);
    assert_eq!(manager.config.general.provider, "other");
    assert_eq!(manager.config.stream.player, "vlc");
    assert_eq!(manager.config.stream.quality, "720");
    assert_eq!(manager.config.stream.translation_type, "dub");
    assert_eq!(manager.config.stream.episode_complete_at, 90);
    assert_eq!(manager.auth.credentials(), Some(("t", "u")));
}

#[test]
fn the_two_files_are_judged_apart() {
    let (manager, write) = load(None, Some(Some(AuthConfig::anonymous())));
    assert!(write);
    assert!(manager.auth.anilist_token.is_none());
    let (manager, write) = load(Some(Some(custom())), None);
    assert!(!write);
    assert_eq!(manager.config.general.provider, "other");
    assert!(manager.auth.username.is_none());
}
