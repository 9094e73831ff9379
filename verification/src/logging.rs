//! Where the log is written, and at which level.
use vstd::prelude::*;

use crate::loading::{data_dir_from, opt_text, xdg_data_dir};
use crate::outside::{join_path, joined_path};

verus! {

/// Where and how the tool logs.
#[derive(Debug)]
pub struct LogSetup {
    /// The directory that holds the log file.
    pub log_dir: String,
    /// The log file; entries are appended to it.
    pub log_file: String,
    /// The filter for log entries, in the syntax of `RUST_LOG`.
    pub filter: String,
}

/// The directory of the log under the data directory `data_dir` (the current
/// directory when there is none): `whitespace/logs`.
pub open spec fn log_dir_under(data_dir: Option<Seq<char>>) -> Seq<char> {
    let base = match data_dir {
        Some(d) => d,
        None => "."@,
    };
    joined_path(joined_path(base, "whitespace"@), "logs"@)
}

/// Whether `setup` logs to `whitespace/logs/whitespace.log` under `data_dir`
/// with the filter `RUST_LOG` gives, `info` when it is not set.
pub open spec fn log_setup_for(
    data_dir: Option<Seq<char>>,
    rust_log: Option<String>,
    setup: LogSetup,
) -> bool {
    &&& setup.log_dir@ == log_dir_under(data_dir)
    &&& setup.log_file@ == joined_path(log_dir_under(data_dir), "whitespace.log"@)
    &&& setup.filter@ == match rust_log {
        Some(f) => f@,
        None => "info"@,
    }
}

impl LogSetup {
    /// Where and how to log, given the data directory (if any) and the value
    /// of `$RUST_LOG`.
    pub fn for_data_dir(data_dir: Option<String>, rust_log: Option<String>) -> (setup: LogSetup)
        ensures
            log_setup_for(opt_text(data_dir), rust_log, setup),
    {
        let base = match data_dir {
            Some(d) => d,
            None => ".".to_string(),
        };
        let app_dir = join_path(base.as_str(), "whitespace");
        let log_dir = join_path(app_dir.as_str(), "logs");
        let log_file = join_path(log_dir.as_str(), "whitespace.log");
        let filter = match rust_log {
            Some(f) => f,
            None => "info".to_string(),
        };
        LogSetup { log_dir, log_file, filter }
    }

    /// Where and how to log, given the values of `$XDG_DATA_HOME` and
    /// `$RUST_LOG`: the data directory that `xdg_data_dir` finds is handed to
    /// `for_data_dir`.
    pub fn new(xdg_data_home: Option<String>, rust_log: Option<String>) -> (setup: LogSetup)
        ensures
            exists|home: Option<String>|
                log_setup_for(#[trigger] data_dir_from(xdg_data_home, home), rust_log, setup),
    {
        let data_dir = xdg_data_dir(xdg_data_home);
        LogSetup::for_data_dir(data_dir, rust_log)
    }
}

/// With `$XDG_DATA_HOME` unset or not an absolute path and a home directory
/// found, the log goes to `.local/share/whitespace/logs/whitespace.log` under
/// that home directory; the current directory is used only when no home
/// directory was found. Stated of every setup `LogSetup::new` may return for
/// the home directory it looked up.
pub proof fn log_lies_under_home(
    xdg_data_home: Option<String>,
    home: Option<String>,
    rust_log: Option<String>,
    setup: LogSetup,
)
    requires
        !crate::loading::xdg_value_usable(xdg_data_home),
        log_setup_for(data_dir_from(xdg_data_home, home), rust_log, setup),
    ensures
        home matches Some(h) ==> setup.log_dir@ == joined_path(
            joined_path(joined_path(joined_path(h@, ".local"@), "share"@), "whitespace"@),
            "logs"@,
        ),
        home matches Some(h) ==> setup.log_file@ == joined_path(
            joined_path(
                joined_path(joined_path(joined_path(h@, ".local"@), "share"@), "whitespace"@),
                "logs"@,
            ),
            "whitespace.log"@,
        ),
        home is None ==> setup.log_dir@ == joined_path(joined_path("."@, "whitespace"@), "logs"@),
{
}

} // verus!
