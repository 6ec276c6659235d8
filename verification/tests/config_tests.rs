use tuikk::base_err::BaseErr;
use tuikk::config::{AppConfig, ConfigError};

#[test]
fn app_config_default_values() {
    let c = AppConfig::default();
    assert_eq!(c.theme, "default");
    assert_eq!(c.log_level, "error");
}

#[test]
fn load_or_default_keeps_loaded_config() {
    let loaded = AppConfig { theme: "dark".to_string(), log_level: "debug".to_string() };
    let c = AppConfig::load_or_default(Ok(loaded));
    assert_eq!(c.theme, "dark");
    assert_eq!(c.log_level, "debug");
}

#[test]
fn load_or_default_falls_back_on_error() {
    for e in [
        ConfigError::NoConfigDir,
        ConfigError::Io("denied".to_string()),
        ConfigError::Parse("bad".to_string()),
        ConfigError::Serialize("oops".to_string()),
        ConfigError::Base(BaseErr::Io("x".to_string())),
    ] {
        let c = AppConfig::load_or_default(Err(e));
        assert_eq!(c.theme, "default");
        assert_eq!(c.log_level, "error");
    }
}

#[test]
fn config_error_messages() {
    assert_eq!(
        ConfigError::NoConfigDir.message(),
        "Unable to determine the system configuration directory"
    );
    assert_eq!(
        ConfigError::Io("permission denied".to_string()).message(),
        "I/O error while handling config file: permission denied"
    );
    assert_eq!(
        ConfigError::Parse("expected `=`".to_string()).message(),
        "TOML syntax error: expected `=`"
    );
    assert_eq!(
        ConfigError::Serialize("unsupported".to_string()).message(),
        "TOML serialization error: unsupported"
    );
    assert_eq!(
        ConfigError::Base(BaseErr::Serialization("s".to_string())).message(),
        "Serialization error: s"
    );
}

#[test]
fn load_step_writes_defaults_for_missing_file() {
    match AppConfig::load_step(false) {
        tuikk::config::LoadStep::WriteDefaults(c) => {
            assert_eq!(c.theme, "default");
            assert_eq!(c.log_level, "error");
        }
        tuikk::config::LoadStep::ReadFile => panic!("expected defaults"),
    }
    assert!(matches!(AppConfig::load_step(true), tuikk::config::LoadStep::ReadFile));
}
