use retag::config::check_version;
use retag::config::Config;
use retag::config::CONFIG_VERSION;
use retag::errors::ConfigError;

#[test]
fn default_config_points_at_one_script() {
    let cfg = Config::default();
    assert_eq!(cfg.scripts.len(), 1);
    assert_eq!(cfg.scripts[0], "./script.lua");
    assert_eq!(cfg.root, "./music/");
}

#[test]
fn only_the_supported_version_is_accepted() {
    assert!(check_version(CONFIG_VERSION).is_ok());
    assert_eq!(check_version(0).unwrap_err(), ConfigError::UnsupportedVersion);
    assert_eq!(check_version(2).unwrap_err(), ConfigError::UnsupportedVersion);
    assert_eq!(
        check_version(u32::MAX).unwrap_err(),
        ConfigError::UnsupportedVersion
    );
}
