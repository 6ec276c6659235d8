//! Application settings and what becomes of them when loading fails.

use crate::base_err::{base_err_text, prefixed, BaseErr};
use vstd::prelude::*;
use vstd::string::*;

verus! {

/// What can go wrong while locating, reading or writing the settings file.
/// Operating-system and TOML errors are held as the text that describes them.
#[derive(Clone, Debug, PartialEq, Eq)]
pub enum ConfigError {
    /// No configuration directory could be determined.
    NoConfigDir,
    /// Reading or writing the file failed.
    Io(String),
    /// The file is not valid TOML for the settings.
    Parse(String),
    /// The settings could not be written as TOML.
    Serialize(String),
    /// One of the errors shared by every module.
    Base(BaseErr),
}

/// The message that describes `e`.
pub open spec fn config_error_text(e: ConfigError) -> Seq<char> {
    match e {
        ConfigError::NoConfigDir => "Unable to determine the system configuration directory"@,
        ConfigError::Io(m) => "I/O error while handling config file: "@ + m@,
        ConfigError::Parse(m) => "TOML syntax error: "@ + m@,
        ConfigError::Serialize(m) => "TOML serialization error: "@ + m@,
        ConfigError::Base(b) => base_err_text(b),
    }
}

impl ConfigError {
    /// The message that describes this error.
    pub fn message(&self) -> (r: String)
        ensures
            r@ == config_error_text(*self),
    {
        match self {
            ConfigError::NoConfigDir => String::from_str(
                "Unable to determine the system configuration directory",
            ),
            ConfigError::Io(m) => prefixed("I/O error while handling config file: ", m.as_str()),
            ConfigError::Parse(m) => prefixed("TOML syntax error: ", m.as_str()),
            ConfigError::Serialize(m) => prefixed("TOML serialization error: ", m.as_str()),
            ConfigError::Base(b) => b.message(),
        }
    }
}

impl From<BaseErr> for ConfigError {
    fn from(e: BaseErr) -> (r: Self) {
        ConfigError::Base(e)
    }
}

impl vstd::std_specs::convert::FromSpecImpl<BaseErr> for ConfigError {
    open spec fn obeys_from_spec() -> bool {
        true
    }

    open spec fn from_spec(e: BaseErr) -> Self {
        ConfigError::Base(e)
    }
}

/// The application settings.
#[derive(Clone, Debug)]
pub struct AppConfig {
    pub theme: String,
    pub log_level: String,
}

/// Whether `c` holds the default settings: the `default` theme and the
/// `error` log level.
pub open spec fn is_default_config(c: AppConfig) -> bool {
    c.theme@ == "default"@ && c.log_level@ == "error"@
}

impl Default for AppConfig {
    fn default() -> (r: Self)
        ensures
            is_default_config(r),
    {
        AppConfig { theme: String::from_str("default"), log_level: String::from_str("error") }
    }
}

/// What loading the settings does next.
pub enum LoadStep {
    /// There is no settings file: write these settings to it and use them.
    WriteDefaults(AppConfig),
    /// Read the settings file.
    ReadFile,
}

impl AppConfig {
    /// The next step of loading the settings, given whether the settings
    /// file exists: a missing file is replaced by the default settings.
    pub fn load_step(file_exists: bool) -> (r: LoadStep)
        ensures
            file_exists ==> r is ReadFile,
            !file_exists ==> (r matches LoadStep::WriteDefaults(c) && is_default_config(c)),
    {
        if file_exists {
            LoadStep::ReadFile
        } else {
            LoadStep::WriteDefaults(AppConfig::default())
        }
    }

    /// The loaded settings, or the default settings where loading failed.
    pub fn load_or_default(loaded: Result<AppConfig, ConfigError>) -> (r: AppConfig)
        ensures
            match loaded {
                Ok(c) => r == c,
                Err(_) => is_default_config(r),
            },
    {
        match loaded {
            Ok(cfg) => cfg,
            Err(_) => AppConfig::default(),
        }
    }
}

} // verus!
