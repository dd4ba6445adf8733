//! The user's preferences and where they are kept.

use crate::platform::{join_path, joined, project_config_dir, Platform, APPLICATION};
use vstd::prelude::*;

verus! {

/// The file that holds the preferences.
pub const CONFIG_FILE: &'static str = "config.json";

/// The port proposed to a user who has not chosen one.
pub const DEFAULT_PORT: u16 = 8080;

/// The colours of the window.
#[derive(Debug, Clone, Copy, PartialEq, Eq, Structural)]
pub enum Theme {
    Light,
    Dark,
}

/// The user's preferences.
#[derive(Debug)]
pub struct Config {
    pub last_port: Option<u16>,
    pub last_certificate_path: Option<String>,
    pub theme: Theme,
}

/// The preferences could not be located.
#[derive(Debug, Clone, Copy, PartialEq, Eq, Structural)]
pub enum ConfigError {
    /// No per-user configuration directory could be determined.
    NoProjectDirectories,
}

impl Config {
    /// Whether these are the preferences of a user who has chosen nothing:
    /// the default port, no certificate path, the dark theme.
    pub open spec fn is_default(&self) -> bool {
        &&& self.last_port == Some(DEFAULT_PORT)
        &&& self.last_certificate_path is None
        &&& self.theme == Theme::Dark
    }

    /// Where the preferences lie: in the per-user configuration directory
    /// of this application, whose path holds the application's name. Fails
    /// where the system has no such directory for this user.
    pub fn config_path(platform: Platform) -> (path: Result<String, ConfigError>)
        ensures
            match path {
                Ok(path) => exists|config_dir: Seq<char>|
                    crate::text::occurs(config_dir, APPLICATION@) && path@ == #[trigger] joined(
                        platform,
                        config_dir,
                        CONFIG_FILE@,
                    ),
                Err(error) => error == ConfigError::NoProjectDirectories,
            },
    {
        let located = project_config_dir();
        let ghost config_dir = located->0@;
        let path = Config::config_path_from(platform, located);
        assert(path is Ok ==> path->Ok_0@ == joined(platform, config_dir, CONFIG_FILE@));
        path
    }

    /// Where the preferences lie, given the configuration directory that the
    /// system has for this application and user, if it has one: the
    /// preferences file inside it, and an error exactly where there is none.
    pub fn config_path_from(platform: Platform, located: Option<String>) -> (path: Result<
        String,
        ConfigError,
    >)
        ensures
            match located {
                Some(config_dir) => path is Ok && path->Ok_0@ == joined(
                    platform,
                    config_dir@,
                    CONFIG_FILE@,
                ),
                None => path == Err::<String, ConfigError>(ConfigError::NoProjectDirectories),
            },
    {
        match located {
            Some(config_dir) => Ok(Config::config_path_in(platform, config_dir.as_str())),
            None => Err(ConfigError::NoProjectDirectories),
        }
    }

    /// Where the preferences lie, given the configuration directory.
    pub fn config_path_in(platform: Platform, config_dir: &str) -> (path: String)
        ensures
            path@ == joined(platform, config_dir@, CONFIG_FILE@),
    {
        join_path(platform, config_dir, CONFIG_FILE)
    }

    /// The preferences to work with, given what was found on disk: those,
    /// or the defaults where nothing was found.
    pub fn load(stored: Option<Config>) -> (config: Config)
        ensures
            match stored {
                Some(found) => config == found,
                None => config.is_default(),
            },
    {
        match stored {
            Some(found) => found,
            None => Config::default(),
        }
    }
}

impl Default for Config {
    fn default() -> (config: Config)
        ensures
            config.is_default(),
    {
        Config { last_port: Some(DEFAULT_PORT), last_certificate_path: None, theme: Theme::Dark }
    }
}

} // verus!
