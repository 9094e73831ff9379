//! Configuration for the `whitespace` tool: the settings it reads from its
//! YAML file and their defaults, the reading of the `threads` setting, where
//! the file is looked for and what loading it leaves a run with, and how the
//! command line and the file combine into the settings a run uses.
pub mod config;
pub mod loading;
pub mod logging;
mod outside;
pub mod runtime;
pub mod threads;

pub use config::{
    BinaryDetection, Config, ProcessingBuilder, ProcessingField, ProcessingSettings, SettingsError,
};
pub use loading::{data_dir_for, xdg_data_dir, ConfigError, ConfigSource, ReadOutcome};
pub use logging::LogSetup;
pub use outside::{joined_path, path_is_absolute};
pub use runtime::{Cli, RuntimeConfig};
pub use threads::{deserialize_threads_value, threads_from_value, ThreadsError, ThreadsValue};
