//! Where the configuration file is looked for, and what a run is left with
//! once the file has (or has not) been read.
use vstd::prelude::*;
use vstd::string::StringExecFns;

use crate::config::Config;
use crate::outside::{home_dir, is_absolute_path, join_path, joined_path, path_is_absolute};

verus! {

/// The text of an optional string.
pub open spec fn opt_text(s: Option<String>) -> Option<Seq<char>> {
    match s {
        Some(t) => Some(t@),
        None => None,
    }
}

/// Whether the value of an XDG variable is used as it stands: it is set and
/// is an absolute path.
pub open spec fn xdg_value_usable(variable: Option<String>) -> bool {
    variable is Some && path_is_absolute(variable->0@)
}

/// The XDG config directory: `$XDG_CONFIG_HOME` when it is an absolute path,
/// else `$HOME/.config` when there is a home directory.
pub open spec fn config_dir_from(variable: Option<String>, home: Option<String>) -> Option<Seq<char>> {
    if xdg_value_usable(variable) {
        Some(variable->0@)
    } else {
        match home {
            Some(h) => Some(joined_path(h@, ".config"@)),
            None => None,
        }
    }
}

/// The XDG data directory: `$XDG_DATA_HOME` when it is an absolute path,
/// else `$HOME/.local/share` when there is a home directory.
pub open spec fn data_dir_from(variable: Option<String>, home: Option<String>) -> Option<Seq<char>> {
    if xdg_value_usable(variable) {
        Some(variable->0@)
    } else {
        match home {
            Some(h) => Some(joined_path(joined_path(h@, ".local"@), "share"@)),
            None => None,
        }
    }
}

/// Whether the value of an XDG variable is used as it stands.
fn xdg_value_is_usable(variable: &Option<String>) -> (usable: bool)
    ensures
        usable == xdg_value_usable(*variable),
        *variable matches Some(v) && v@.len() == 0 ==> !usable,
{
    match variable {
        Some(value) => is_absolute_path(value.as_str()),
        None => false,
    }
}

/// The home directory, looked up only when the XDG variable is not used.
fn home_unless_usable(variable: &Option<String>) -> (home: Option<String>)
    ensures
        xdg_value_usable(*variable) ==> home is None,
{
    if xdg_value_is_usable(variable) {
        None
    } else {
        home_dir()
    }
}

/// The XDG config directory, given the value of `$XDG_CONFIG_HOME` and the
/// home directory: the variable when it is an absolute path, else
/// `.config` under the home directory.
fn config_dir_for(xdg_config_home: Option<String>, home: Option<String>) -> (dir: Option<String>)
    ensures
        opt_text(dir) == config_dir_from(xdg_config_home, home),
        xdg_config_home matches Some(v) && v@.len() == 0 ==> opt_text(dir) == config_dir_from(None, home),
{
    if xdg_value_is_usable(&xdg_config_home) {
        return xdg_config_home;
    }
    match home {
        Some(h) => Some(join_path(h.as_str(), ".config")),
        None => None,
    }
}

/// The XDG data directory, given the value of `$XDG_DATA_HOME` and the home
/// directory: the variable when it is an absolute path, else `.local/share`
/// under the home directory.
pub fn data_dir_for(xdg_data_home: Option<String>, home: Option<String>) -> (dir: Option<String>)
    ensures
        opt_text(dir) == data_dir_from(xdg_data_home, home),
        xdg_data_home matches Some(v) && v@.len() == 0 ==> opt_text(dir) == data_dir_from(None, home),
{
    if xdg_value_is_usable(&xdg_data_home) {
        return xdg_data_home;
    }
    match home {
        Some(h) => {
            let local = join_path(h.as_str(), ".local");
            Some(join_path(local.as_str(), "share"))
        },
        None => None,
    }
}

/// The XDG config directory, given the value of `$XDG_CONFIG_HOME`: that value
/// when it is an absolute path, else `$HOME/.config`.
fn xdg_config_dir(xdg_config_home: Option<String>) -> (dir: Option<String>)
    ensures
        exists|home: Option<String>|
            opt_text(dir) == #[trigger] config_dir_from(xdg_config_home, home),
{
    let home = home_unless_usable(&xdg_config_home);
    config_dir_for(xdg_config_home, home)
}

/// The XDG data directory, given the value of `$XDG_DATA_HOME`: that value
/// when it is an absolute path, else `$HOME/.local/share`. The home directory
/// is looked up only in the second case, and whatever it is found to be is
/// handed to `data_dir_for`.
///
/// The helpers of `dirs` are not used for this, as they follow the variable
/// only on Linux; this gives the same layout on every platform.
pub fn xdg_data_dir(xdg_data_home: Option<String>) -> (dir: Option<String>)
    ensures
        exists|home: Option<String>|
            opt_text(dir) == #[trigger] data_dir_from(xdg_data_home, home),
{
    let home = home_unless_usable(&xdg_data_home);
    data_dir_for(xdg_data_home, home)
}

/// The file the tool reads its settings from, relative to the config
/// directory: `whitespace/whitespace.yml`.
pub open spec fn primary_config_file(config_dir: Seq<char>) -> Seq<char> {
    joined_path(joined_path(config_dir, "whitespace"@), "whitespace.yml"@)
}

/// Where the settings are to come from.
#[derive(Debug)]
pub enum ConfigSource {
    /// The file named on the command line.
    Explicit(String),
    /// The tool's file in the user's config directory, if it is there.
    Primary(String),
    /// No file: the defaults.
    Defaults,
}

/// What became of reading and parsing the file of a `ConfigSource`.
#[derive(Debug)]
pub enum ReadOutcome {
    /// There is no file at the path.
    Missing,
    /// The file could not be read or parsed; the reason.
    Failed(String),
    /// The settings the file gives.
    Loaded(Config),
}

/// Why no settings could be had.
#[derive(Debug)]
pub enum ConfigError {
    /// The file named on the command line could not be loaded.
    LoadFailed { path: String, cause: String },
    /// The thread count to run with is 0.
    ZeroThreads,
}

/// The reason given when a file named on the command line is not there.
pub open spec fn unreadable_file() -> Seq<char> {
    "Failed to read config file"@
}

impl ConfigError {
    /// The message this error is reported with (its cause aside).
    pub open spec fn spec_message(&self) -> Seq<char> {
        match self {
            ConfigError::LoadFailed { path, .. } => "Failed to load config from "@ + path@,
            ConfigError::ZeroThreads => "Thread count must be greater than 0"@,
        }
    }

    /// The message this error is reported with (its cause aside).
    pub fn message(&self) -> (m: String)
        ensures
            m@ == self.spec_message(),
    {
        match self {
            ConfigError::LoadFailed { path, .. } => {
                let mut m = "Failed to load config from ".to_string();
                m.append(path.as_str());
                m
            },
            ConfigError::ZeroThreads => "Thread count must be greater than 0".to_string(),
        }
    }
}

/// Whether `source` is where the settings come from when the command line
/// names `config_path` and the config directory is `config_dir`: the named
/// file first, else the tool's file in the config directory, else the defaults.
pub open spec fn source_for(
    config_path: Option<String>,
    config_dir: Option<Seq<char>>,
    source: ConfigSource,
) -> bool {
    match config_path {
        Some(p) => source == ConfigSource::Explicit(p),
        None => match config_dir {
            Some(d) => source matches ConfigSource::Primary(f) && f@ == primary_config_file(d),
            None => source is Defaults,
        },
    }
}

impl Config {
    /// Where the settings come from, given the file named on the command line
    /// (if any), the value of `$XDG_CONFIG_HOME` (if set) and the home
    /// directory (if any).
    pub fn locate_with_home(
        config_path: Option<String>,
        xdg_config_home: Option<String>,
        home: Option<String>,
    ) -> (source: ConfigSource)
        ensures
            source_for(config_path, config_dir_from(xdg_config_home, home), source),
            xdg_config_home matches Some(v) && v@.len() == 0 ==> source_for(
                config_path,
                config_dir_from(None, home),
                source,
            ),
    {
        match config_path {
            Some(p) => ConfigSource::Explicit(p),
            None => match config_dir_for(xdg_config_home, home) {
                Some(d) => {
                    let project = join_path(d.as_str(), "whitespace");
                    ConfigSource::Primary(join_path(project.as_str(), "whitespace.yml"))
                },
                None => ConfigSource::Defaults,
            },
        }
    }

    /// Where the settings come from, given the file named on the command line
    /// (if any) and the value of `$XDG_CONFIG_HOME` (if set). The home
    /// directory is only looked up when no file is named and the variable is
    /// not an absolute path; whatever it is found to be is handed to
    /// `locate_with_home`.
    pub fn locate(config_path: Option<String>, xdg_config_home: Option<String>) -> (source: ConfigSource)
        ensures
            exists|home: Option<String>|
                source_for(config_path, #[trigger] config_dir_from(xdg_config_home, home), source),
    {
        let home = if config_path.is_some() {
            None
        } else {
            home_unless_usable(&xdg_config_home)
        };
        Config::locate_with_home(config_path, xdg_config_home, home)
    }

    /// The settings a run uses, given where they were to come from and what
    /// reading that file gave. A file named on the command line must load;
    /// the tool's own file is used when it loads and passed over otherwise,
    /// leaving the defaults.
    pub fn load(source: ConfigSource, outcome: ReadOutcome) -> (r: Result<Config, ConfigError>)
        ensures
            source matches ConfigSource::Explicit(p) ==> match outcome {
                ReadOutcome::Loaded(c) => r == Ok::<Config, ConfigError>(c),
                ReadOutcome::Failed(m) => r == Err::<Config, ConfigError>(
                    ConfigError::LoadFailed { path: p, cause: m },
                ),
                ReadOutcome::Missing => r matches Err(ConfigError::LoadFailed { path, cause })
                    && path == p && cause@ == unreadable_file(),
            },
            source is Primary && outcome is Loaded ==> r == Ok::<Config, ConfigError>(outcome->Loaded_0),
            !(source is Explicit) && !(source is Primary && outcome is Loaded) ==> (r matches Ok(c)
                && c.is_default()),
    {
        match source {
            ConfigSource::Explicit(path) => match outcome {
                ReadOutcome::Loaded(c) => Ok(c),
                ReadOutcome::Failed(cause) => Err(ConfigError::LoadFailed { path, cause }),
                ReadOutcome::Missing => Err(
                    ConfigError::LoadFailed { path, cause: "Failed to read config file".to_string() },
                ),
            },
            ConfigSource::Primary(_) => match outcome {
                ReadOutcome::Loaded(c) => Ok(c),
                _ => Ok(Config::default()),
            },
            ConfigSource::Defaults => Ok(Config::default()),
        }
    }
}

/// With no file named and an XDG variable that is unset or not an absolute
/// path, the settings come from `.config/whitespace/whitespace.yml` under the
/// home directory that was found, and only when none was found from the
/// defaults. Stated of every source that `Config::locate_with_home` (and so
/// `Config::locate`, for the home directory it looked up) may return.
pub proof fn user_file_lies_under_home(
    xdg_config_home: Option<String>,
    home: Option<String>,
    source: ConfigSource,
)
    requires
        !xdg_value_usable(xdg_config_home),
        source_for(None, config_dir_from(xdg_config_home, home), source),
    ensures
        home matches Some(h) ==> (source matches ConfigSource::Primary(f) && f@ == joined_path(
            joined_path(joined_path(h@, ".config"@), "whitespace"@),
            "whitespace.yml"@,
        )),
        home is None ==> source is Defaults,
{
}

/// An absolute XDG variable decides the config directory whatever the home
/// directory: two lookups that differ only in the home directory agree.
pub proof fn absolute_variable_ignores_home(
    xdg_config_home: Option<String>,
    home1: Option<String>,
    home2: Option<String>,
)
    requires
        xdg_value_usable(xdg_config_home),
    ensures
        config_dir_from(xdg_config_home, home1) == config_dir_from(xdg_config_home, home2),
        config_dir_from(xdg_config_home, home1) == Some(xdg_config_home->0@),
        data_dir_from(xdg_config_home, home1) == data_dir_from(xdg_config_home, home2),
{
}

/// With an XDG variable that is unset or not an absolute path, the data
/// directory is `.local/share` under the home directory that was found, and
/// there is none only when no home directory was found.
pub proof fn data_dir_lies_under_home(xdg_data_home: Option<String>, home: Option<String>)
    requires
        !xdg_value_usable(xdg_data_home),
    ensures
        home matches Some(h) ==> data_dir_from(xdg_data_home, home) == Some(
            joined_path(joined_path(h@, ".local"@), "share"@),
        ),
        home is None ==> data_dir_from(xdg_data_home, home) is None,
{
}

} // verus!
