use vstd::prelude::*;
use crate::warning::Warning;

verus! {

/// The daemon's settings.
#[derive(Debug)]
pub struct Config {
    pub flip_screen: bool,
    pub flip_buttons: bool,
    pub gadgets_path: String,
}

/// What became of reading and parsing the daemon configuration file.
#[derive(Debug)]
pub enum ConfigSource {
    /// The file could not be read.
    Missing,
    /// The file was read and parsed; `gadgets_path` is absent when the file
    /// does not set it.
    Parsed { flip_screen: bool, flip_buttons: bool, gadgets_path: Option<String> },
    /// The file was read but does not have the shape of a daemon configuration.
    Malformed { reason: String },
}

/// Why no configuration could be settled on.
#[derive(Debug)]
pub enum ConfigError {
    Malformed { reason: String },
}

/// A configuration together with what the operator should be told about it.
#[derive(Debug)]
pub struct LoadedConfig {
    pub config: Config,
    pub warning: Option<Warning>,
}

/// The gadget directory used when none is configured.
pub open spec fn default_gadgets_path() -> Seq<char> {
    "."@
}

/// Whether `c` holds the default settings.
pub open spec fn is_default_config(c: Config) -> bool {
    c.flip_screen == true && c.flip_buttons == false && c.gadgets_path@ == default_gadgets_path()
}

impl Config {
    /// The settings used when no configuration file can be read.
    pub fn default() -> (r: Config)
        ensures
            is_default_config(r),
    {
        Config { flip_screen: true, flip_buttons: false, gadgets_path: String::from_str(".") }
    }
}

/// Settles the configuration from what reading and parsing its file gave: a
/// missing file gives the defaults and a warning; a parsed file gives its
/// settings, with the default gadget directory where it names none; a
/// malformed file is an error, never silently replaced by the defaults.
pub fn resolve_config(source: ConfigSource) -> (r: Result<LoadedConfig, ConfigError>)
    ensures
        match source {
            ConfigSource::Missing => r is Ok && is_default_config(r->Ok_0.config)
                && r->Ok_0.warning == Some(Warning::ConfigMissing),
            ConfigSource::Parsed { flip_screen, flip_buttons, gadgets_path } => r is Ok
                && r->Ok_0.config.flip_screen == flip_screen
                && r->Ok_0.config.flip_buttons == flip_buttons
                && r->Ok_0.config.gadgets_path@ == match gadgets_path {
                    Some(p) => p@,
                    None => default_gadgets_path(),
                }
                && r->Ok_0.warning.is_none(),
            ConfigSource::Malformed { reason } => r is Err
                && r->Err_0 == ConfigError::Malformed { reason },
        },
{
    match source {
        ConfigSource::Missing => Ok(LoadedConfig {
            config: Config::default(),
            warning: Some(Warning::ConfigMissing),
        }),
        ConfigSource::Parsed { flip_screen, flip_buttons, gadgets_path } => {
            let gadgets_path = match gadgets_path {
                Some(p) => p,
                None => String::from_str("."),
            };
            Ok(LoadedConfig {
                config: Config { flip_screen, flip_buttons, gadgets_path },
                warning: None,
            })
        },
        ConfigSource::Malformed { reason } => Err(ConfigError::Malformed { reason }),
    }
}

} // verus!
