use std::path::PathBuf;

use modsupdater::config::DEFAULT_USER_AGENT;
use modsupdater::AppConfig;

#[test]
fn default_config_uses_default_user_agent() {
    let c = AppConfig::default();
    assert_eq!(c.user_agent(), "unknown/modsupdater/0.1.0");
    assert_eq!(c.user_agent(), DEFAULT_USER_AGENT);
    assert!(c.last_mods_dir.is_none() && c.last_loader.is_none() && c.last_game_version.is_none());
    assert!(c.user_agent_identifier.is_none());
}

#[test]
fn finalize_uses_identifier() {
    let mut c = AppConfig::from_parts(None, Some("forge".into()), None, Some("me/pack/1.0".into()));
    assert_eq!(c.user_agent(), DEFAULT_USER_AGENT);
    c.finalize();
    assert_eq!(c.user_agent(), "me/pack/1.0");
    assert_eq!(c.last_loader.as_deref(), Some("forge"));
    c.finalize();
    assert_eq!(c.user_agent(), "me/pack/1.0");
}

#[test]
fn settings_are_applied() {
    let mut c = AppConfig::default();
    assert!(!c.apply_settings(None, None, None));
    assert!(c.apply_settings(None, Some("quilt".into()), None));
    assert_eq!(c.last_loader.as_deref(), Some("quilt"));
    assert!(c.last_game_version.is_none());
    assert!(c.apply_settings(Some(PathBuf::from("/mods")), None, Some("1.20.1".into())));
    assert_eq!(c.last_mods_dir, Some(PathBuf::from("/mods")));
    assert_eq!(c.last_loader.as_deref(), Some("quilt"));
    assert_eq!(c.last_game_version.as_deref(), Some("1.20.1"));
}

#[test]
fn run_is_remembered() {
    let mut c = AppConfig::default();
    c.remember_run("fabric".into(), "1.21.1".into(), None);
    assert_eq!(c.last_loader.as_deref(), Some("fabric"));
    assert_eq!(c.last_game_version.as_deref(), Some("1.21.1"));
    assert!(c.last_mods_dir.is_none());
    c.remember_run("forge".into(), "1.20.1".into(), Some(PathBuf::from("a")));
    assert_eq!(c.last_mods_dir, Some(PathBuf::from("a")));
    assert_eq!(c.mods_dir_or_last(None), Some(PathBuf::from("a")));
    assert_eq!(c.mods_dir_or_last(Some(PathBuf::from("b"))), Some(PathBuf::from("b")));
    assert_eq!(AppConfig::default().mods_dir_or_last(None), None);
}
