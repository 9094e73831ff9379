//! The settings a run uses: the command line merged with the configuration
//! file.
use vstd::prelude::*;

use crate::config::{texts, Config};
use crate::loading::ConfigError;
use crate::outside::cpu_count;

verus! {

/// The command line, as far as the settings of a run depend on it.
#[derive(Debug, Clone)]
pub struct Cli {
    /// Directories to process
    pub directories: Vec<String>,
    /// Configuration file to read in place of the user's
    pub config: Option<String>,
    /// Report what would change without writing
    pub dry_run: bool,
    /// Log more
    pub verbose: bool,
    /// Descend into subdirectories
    pub recursive: bool,
    /// Number of threads; it defaults to the number of available CPUs
    pub threads: usize,
}

/// Runtime configuration that merges CLI arguments with file-based config.
/// This is the validated, ready-to-use configuration for the application.
#[derive(Debug, Clone)]
pub struct RuntimeConfig {
    /// Target directories to process
    pub directories: Vec<String>,
    /// Whether to perform a dry run
    pub dry_run: bool,
    /// Whether to process recursively
    pub recursive: bool,
    /// Number of threads to use
    pub threads: usize,
    /// File-based configuration (exclude patterns, etc.)
    pub file_config: Config,
}

/// The directories a run processes: those named, or the current directory
/// when none is.
pub open spec fn target_directories(named: Seq<Seq<char>>) -> Seq<Seq<char>> {
    if named.len() == 0 {
        seq!["."@]
    } else {
        named
    }
}

/// The thread count a run uses: the one on the command line when it differs
/// from the CPU count (its default, so it was set on purpose), else the one
/// in the configuration file.
pub open spec fn chosen_threads(cli_threads: usize, file_threads: usize, cpus: usize) -> usize {
    if cli_threads != cpus {
        cli_threads
    } else {
        file_threads
    }
}

/// Whether `r` is what merging `cli` with `file_config` gives on a machine
/// with `cpus` available CPUs: a thread count of 0 is refused; otherwise
/// the run takes the chosen directories and thread count, the dry-run and
/// recursion flags of the command line, and the file's settings.
pub open spec fn merged(
    cli: Cli,
    file_config: Config,
    cpus: usize,
    r: Result<RuntimeConfig, ConfigError>,
) -> bool {
    let threads = chosen_threads(cli.threads, file_config.processing.threads, cpus);
    if threads == 0 {
        r matches Err(ConfigError::ZeroThreads)
    } else {
        r matches Ok(rc) && {
            &&& texts(rc.directories) == target_directories(texts(cli.directories))
            &&& rc.dry_run == cli.dry_run
            &&& rc.recursive == cli.recursive
            &&& rc.threads == threads
            &&& rc.file_config == file_config
        }
    }
}

fn target_dirs(named: &Vec<String>) -> (dirs: Vec<String>)
    ensures
        texts(dirs) == target_directories(texts(*named)),
{
    if named.len() == 0 {
        let mut dirs: Vec<String> = Vec::new();
        dirs.push(".".to_string());
        assert(texts(dirs) =~= seq!["."@]);
        dirs
    } else {
        let dirs = named.clone();
        assert(texts(dirs) =~= texts(*named));
        dirs
    }
}

impl RuntimeConfig {
    /// Merges the command line with the settings loaded from file, for a
    /// machine with `cpus` available CPUs.
    pub fn merge(cli: &Cli, file_config: Config, cpus: usize) -> (r: Result<RuntimeConfig, ConfigError>)
        ensures
            merged(*cli, file_config, cpus, r),
    {
        let directories = target_dirs(&cli.directories);
        let threads = if cli.threads != cpus {
            cli.threads
        } else {
            file_config.processing.threads
        };
        if threads == 0 {
            return Err(ConfigError::ZeroThreads);
        }
        Ok(RuntimeConfig {
            directories,
            dry_run: cli.dry_run,
            recursive: cli.recursive,
            threads,
            file_config,
        })
    }

    /// Create RuntimeConfig by merging CLI args with the file-based config,
    /// taking the CPU count of this machine as the command line's default
    /// thread count.
    pub fn from_cli(cli: &Cli, file_config: Config) -> (r: Result<RuntimeConfig, ConfigError>)
        ensures
            exists|cpus: usize| cpus >= 1 && #[trigger] merged(*cli, file_config, cpus, r),
    {
        let cpus = cpu_count();
        RuntimeConfig::merge(cli, file_config, cpus)
    }
}

/// A run never has zero threads: whatever the command line, the file and the
/// machine, a merge that succeeds yields a positive thread count.
pub proof fn merged_run_has_threads(cli: Cli, file_config: Config, cpus: usize, r: Result<RuntimeConfig, ConfigError>)
    requires
        merged(cli, file_config, cpus, r),
    ensures
        r matches Ok(rc) ==> rc.threads > 0,
{
}

/// A thread count set on the command line (one that differs from the CPU
/// count, the default) wins over the configuration file.
pub proof fn cli_threads_override_file(cli: Cli, file_config: Config, cpus: usize, r: Result<RuntimeConfig, ConfigError>)
    requires
        merged(cli, file_config, cpus, r),
        cli.threads != cpus,
        cli.threads > 0,
    ensures
        r matches Ok(rc) && rc.threads == cli.threads,
{
}

/// When the command line leaves the thread count at its default, the
/// configuration file decides it.
pub proof fn file_threads_apply_by_default(cli: Cli, file_config: Config, cpus: usize, r: Result<RuntimeConfig, ConfigError>)
    requires
        merged(cli, file_config, cpus, r),
        cli.threads == cpus,
        file_config.processing.threads > 0,
    ensures
        r matches Ok(rc) && rc.threads == file_config.processing.threads,
{
}

} // verus!
