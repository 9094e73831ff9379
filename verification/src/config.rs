//! The settings read from the configuration file, their defaults, and the
//! reading of the `processing` section field by field.
use vstd::prelude::*;
use vstd::string::StringExecFns;

use crate::outside::cpu_count;
use crate::threads::{
    accepted_thread_count_is_positive, deserialize_threads_value, threads_of, ThreadsError,
    ThreadsValue,
};

pub use crate::loading::xdg_data_dir;

verus! {

/// The settings a configuration file can give.
#[derive(Debug, Clone)]
pub struct Config {
    /// File extensions to process (empty = all text files)
    pub file_extensions: Vec<String>,
    /// Path patterns to exclude (glob patterns)
    pub exclude_paths: Vec<String>,
    /// Filename patterns to exclude (glob patterns)
    pub exclude_files: Vec<String>,
    /// Binary file extensions to exclude (fast pre-filter)
    pub exclude_binary_extensions: Vec<String>,
    /// Binary file detection settings
    pub binary_detection: BinaryDetection,
    /// Processing settings
    pub processing: ProcessingSettings,
}

/// How binary files are recognised.
#[derive(Debug, Clone, Copy)]
pub struct BinaryDetection {
    /// Check for null bytes to detect binary files
    pub check_null_bytes: bool,
    /// Maximum bytes to read for binary detection
    pub sample_size: usize,
}

/// Limits on the work done.
#[derive(Debug, Clone, Copy)]
pub struct ProcessingSettings {
    /// Files larger than this many bytes are skipped.
    pub max_file_size: u64,
    /// Number of worker threads.
    pub threads: usize,
}

/// The largest file processed when the configuration does not say: 100 MiB.
pub const DEFAULT_MAX_FILE_SIZE: u64 = 104857600u64;

/// The number of bytes sampled for binary detection by default.
pub const DEFAULT_SAMPLE_SIZE: usize = 8192usize;

/// The text of a list of strings.
pub open spec fn texts(v: Vec<String>) -> Seq<Seq<char>> {
    v@.map_values(|s: String| s@)
}

/// The path patterns excluded by default.
pub open spec fn default_exclude_paths() -> Seq<Seq<char>> {
    seq![
        ".git/**"@, ".svn/**"@, ".hg/**"@,
        "node_modules/**"@, ".venv/**"@, "venv/**"@, ".env/**"@, "env/**"@,
        "__pycache__/**"@, ".tox/**"@, ".pytest_cache/**"@,
        "target/**"@, "build/**"@, "dist/**"@, "out/**"@, "bin/**"@, "obj/**"@,
        ".vscode/**"@, ".idea/**"@, ".vs/**"@, "*.tmp/**"@,
        ".npm/**"@, ".yarn/**"@, ".pnpm-store/**"@, "vendor/**"@,
    ]
}

/// The file name patterns excluded by default.
pub open spec fn default_exclude_files() -> Seq<Seq<char>> {
    seq!["*.min.js"@, "*.min.css"@, "*.bundle.*"@, "*.lock"@, "*.log"@]
}

/// The binary file extensions excluded by default.
pub open spec fn default_binary_extensions() -> Seq<Seq<char>> {
    seq![
        "*.exe"@, "*.dll"@, "*.so"@, "*.dylib"@, "*.a"@, "*.lib"@, "*.bin"@, "*.out"@,
        "*.zip"@, "*.tar"@, "*.gz"@, "*.bz2"@, "*.xz"@, "*.7z"@, "*.rar"@,
        "*.jpg"@, "*.jpeg"@, "*.png"@, "*.gif"@, "*.bmp"@, "*.ico"@, "*.svg"@, "*.webp"@,
        "*.mp3"@, "*.mp4"@, "*.avi"@, "*.mov"@, "*.wav"@, "*.flac"@,
        "*.pdf"@, "*.doc"@, "*.docx"@, "*.xls"@, "*.xlsx"@, "*.ppt"@, "*.pptx"@,
        "*.sqlite"@, "*.db"@, "*.dat"@, "*.pyc"@, "*.class"@, "*.jar"@,
    ]
}

/// Owned copies of a list of string slices, in order.
fn owned_strings(items: &[&str]) -> (v: Vec<String>)
    ensures
        texts(v) == items@.map_values(|s: &str| s@),
{
    let mut v: Vec<String> = Vec::new();
    let mut i: usize = 0;
    while i < items.len()
        invariant
            i <= items@.len(),
            texts(v) == items@.take(i as int).map_values(|s: &str| s@),
        decreases items@.len() - i,
    {
        let ghost before = v@;
        let item = items[i].to_string();
        v.push(item);
        assert(v@ == before.push(item));
        assert(texts(v) =~= before.map_values(|s: String| s@).push(items@[i as int]@));
        assert(items@.take(i + 1) =~= items@.take(i as int).push(items@[i as int]));
        i = i + 1;
        assert(texts(v) =~= items@.take(i as int).map_values(|s: &str| s@));
    }
    assert(items@.take(items@.len() as int) == items@);
    v
}

impl BinaryDetection {
    /// Whether these are the default detection settings.
    pub open spec fn is_default(self) -> bool {
        self.check_null_bytes && self.sample_size == DEFAULT_SAMPLE_SIZE
    }
}

impl Default for BinaryDetection {
    /// Null bytes are looked for in the first 8 KiB of a file.
    fn default() -> (d: Self)
        ensures
            d.is_default(),
    {
        BinaryDetection { check_null_bytes: true, sample_size: DEFAULT_SAMPLE_SIZE }
    }
}

impl Default for ProcessingSettings {
    /// Files up to 100 MiB, one thread per available CPU.
    fn default() -> (d: Self)
        ensures
            d.max_file_size == DEFAULT_MAX_FILE_SIZE,
            d.threads >= 1,
    {
        ProcessingSettings { max_file_size: DEFAULT_MAX_FILE_SIZE, threads: cpu_count() }
    }
}

impl Config {
    /// Whether `self` holds the default settings, its thread count being
    /// whatever CPU count (at least one) was found.
    pub open spec fn is_default(self) -> bool {
        &&& texts(self.file_extensions) == Seq::<Seq<char>>::empty()
        &&& texts(self.exclude_paths) == default_exclude_paths()
        &&& texts(self.exclude_files) == default_exclude_files()
        &&& texts(self.exclude_binary_extensions) == default_binary_extensions()
        &&& self.binary_detection.is_default()
        &&& self.processing.max_file_size == DEFAULT_MAX_FILE_SIZE
        &&& self.processing.threads >= 1
    }
}

impl Default for Config {
    /// Every extension, the usual version-control, dependency, build and
    /// editor directories excluded, minified, bundled, lock and log files
    /// excluded, and the common binary formats skipped.
    fn default() -> (c: Self)
        ensures
            c.is_default(),
    {
        let file_extensions: Vec<String> = Vec::new();
        let exclude_paths = owned_strings(
            &[
                // Version control
                ".git/**", ".svn/**", ".hg/**",
                // Dependencies and virtual environments
                "node_modules/**", ".venv/**", "venv/**", ".env/**", "env/**",
                "__pycache__/**", ".tox/**", ".pytest_cache/**",
                // Build outputs
                "target/**", "build/**", "dist/**", "out/**", "bin/**", "obj/**",
                // IDE and editor files
                ".vscode/**", ".idea/**", ".vs/**", "*.tmp/**",
                // Package managers
                ".npm/**", ".yarn/**", ".pnpm-store/**", "vendor/**",
            ],
        );
        let exclude_files = owned_strings(
            &["*.min.js", "*.min.css", "*.bundle.*", "*.lock", "*.log"],
        );
        let exclude_binary_extensions = owned_strings(
            &[
                // Executables and libraries
                "*.exe", "*.dll", "*.so", "*.dylib", "*.a", "*.lib", "*.bin", "*.out",
                // Archives
                "*.zip", "*.tar", "*.gz", "*.bz2", "*.xz", "*.7z", "*.rar",
                // Images
                "*.jpg", "*.jpeg", "*.png", "*.gif", "*.bmp", "*.ico", "*.svg", "*.webp",
                // Audio/Video
                "*.mp3", "*.mp4", "*.avi", "*.mov", "*.wav", "*.flac",
                // Documents
                "*.pdf", "*.doc", "*.docx", "*.xls", "*.xlsx", "*.ppt", "*.pptx",
                // Other binary formats
                "*.sqlite", "*.db", "*.dat", "*.pyc", "*.class", "*.jar",
            ],
        );
        assert(texts(file_extensions) =~= Seq::<Seq<char>>::empty());
        assert(texts(exclude_paths) =~= default_exclude_paths());
        assert(texts(exclude_files) =~= default_exclude_files());
        assert(texts(exclude_binary_extensions) =~= default_binary_extensions());
        Config {
            file_extensions,
            exclude_paths,
            exclude_files,
            exclude_binary_extensions,
            binary_detection: BinaryDetection::default(),
            processing: ProcessingSettings::default(),
        }
    }
}

/// A field of the `processing` section.
#[derive(Debug, Clone, Copy, PartialEq, Eq, Structural)]
pub enum ProcessingField {
    /// `max-file-size`
    MaxFileSize,
    /// `threads`
    Threads,
}

impl ProcessingField {
    /// The key the field is written under.
    pub open spec fn spec_key(self) -> Seq<char> {
        match self {
            ProcessingField::MaxFileSize => "max-file-size"@,
            ProcessingField::Threads => "threads"@,
        }
    }

    /// The key the field is written under.
    pub fn key(&self) -> (k: &'static str)
        ensures
            k@ == self.spec_key(),
    {
        match self {
            ProcessingField::MaxFileSize => "max-file-size",
            ProcessingField::Threads => "threads",
        }
    }
}

/// Why the `processing` section was refused.
#[derive(Debug)]
pub enum SettingsError {
    /// The field was given twice.
    DuplicateField(ProcessingField),
    /// The `threads` value was refused.
    Threads(ThreadsError),
}

impl SettingsError {
    /// The message this error is reported with.
    pub open spec fn spec_message(&self) -> Seq<char> {
        match self {
            SettingsError::DuplicateField(f) => "duplicate field `"@ + f.spec_key() + "`"@,
            SettingsError::Threads(e) => e.spec_message(),
        }
    }

    /// The message this error is reported with.
    pub fn message(&self) -> (m: String)
        ensures
            m@ == self.spec_message(),
    {
        match self {
            SettingsError::DuplicateField(f) => {
                let mut m = "duplicate field `".to_string();
                m.append(f.key());
                m.append("`");
                m
            },
            SettingsError::Threads(e) => e.message(),
        }
    }
}

/// Whether a `threads` value fits the thread count: an integer above
/// `usize::MAX` does not (it is cut down to its low bits, possibly to 0).
pub open spec fn threads_value_fits(value: ThreadsValue) -> bool {
    value is Integer ==> value->Integer_0 <= usize::MAX
}

/// The `processing` section as read so far: the value of each field met.
#[derive(Debug)]
pub struct ProcessingBuilder {
    pub max_file_size: Option<u64>,
    pub threads: Option<usize>,
}

impl ProcessingBuilder {
    /// Whether `field` has been met already.
    pub open spec fn has(self, field: ProcessingField) -> bool {
        match field {
            ProcessingField::MaxFileSize => self.max_file_size is Some,
            ProcessingField::Threads => self.threads is Some,
        }
    }

    /// No thread count of zero has been recorded.
    pub open spec fn threads_positive(self) -> bool {
        self.threads matches Some(n) ==> n > 0
    }

    /// The settings the section gives once read to its end, on a machine with
    /// `cpus` available CPUs.
    pub open spec fn settings_for(self, cpus: usize) -> ProcessingSettings {
        ProcessingSettings {
            max_file_size: match self.max_file_size {
                Some(size) => size,
                None => DEFAULT_MAX_FILE_SIZE,
            },
            threads: match self.threads {
                Some(n) => n,
                None => cpus,
            },
        }
    }

    /// Nothing read yet.
    pub fn new() -> (b: Self)
        ensures
            b.max_file_size is None,
            b.threads is None,
            b.threads_positive(),
    {
        ProcessingBuilder { max_file_size: None, threads: None }
    }

    /// Checks, before its value is read, that `field` has not been met
    /// already: a field may be given only once.
    pub fn check_field(&self, field: ProcessingField) -> (r: Result<(), SettingsError>)
        ensures
            self.has(field) ==> r == Err::<(), SettingsError>(SettingsError::DuplicateField(field)),
            !self.has(field) ==> r is Ok,
    {
        let seen = match field {
            ProcessingField::MaxFileSize => self.max_file_size.is_some(),
            ProcessingField::Threads => self.threads.is_some(),
        };
        if seen {
            Err(SettingsError::DuplicateField(field))
        } else {
            Ok(())
        }
    }

    /// Records the value given for `max-file-size`.
    pub fn set_max_file_size(&mut self, size: u64)
        ensures
            final(self).max_file_size == Some(size),
            final(self).threads == old(self).threads,
    {
        self.max_file_size = Some(size);
    }

    /// Interprets and records the value given for `threads`; a refused value
    /// leaves the section as it was.
    pub fn set_threads(&mut self, value: ThreadsValue) -> (r: Result<(), SettingsError>)
        ensures
            final(self).max_file_size == old(self).max_file_size,
            exists|cpus: usize|
                cpus >= 1 && match #[trigger] threads_of(value, cpus) {
                    Ok(n) => r is Ok && final(self).threads == Some(n),
                    Err(e) => r == Err::<(), SettingsError>(SettingsError::Threads(e))
                        && final(self).threads == old(self).threads,
                },
            threads_value_fits(value) && r is Ok ==> (final(self).threads matches Some(n) && n > 0),
            threads_value_fits(value) && old(self).threads_positive() ==> final(self).threads_positive(),
    {
        let ghost given = value;
        let r = deserialize_threads_value(value);
        proof {
            let cpus = choose|cpus: usize| cpus >= 1 && r == #[trigger] threads_of(given, cpus);
            if threads_value_fits(given) {
                accepted_thread_count_is_positive(given, cpus);
            }
        }
        match r {
            Ok(n) => {
                self.threads = Some(n);
                Ok(())
            },
            Err(e) => Err(SettingsError::Threads(e)),
        }
    }

    /// The settings the section gives: a missing `max-file-size` is 100 MiB,
    /// missing `threads` one thread per available CPU.
    pub fn finish(self) -> (s: ProcessingSettings)
        ensures
            exists|cpus: usize| cpus >= 1 && s == #[trigger] self.settings_for(cpus),
            self.threads_positive() ==> s.threads > 0,
    {
        let max_file_size = match self.max_file_size {
            Some(size) => size,
            None => DEFAULT_MAX_FILE_SIZE,
        };
        let threads = match self.threads {
            Some(n) => n,
            None => cpu_count(),
        };
        let s = ProcessingSettings { max_file_size, threads };
        assert(s == self.settings_for(if self.threads is Some { 1 } else { threads }));
        s
    }
}

/// What the `processing` section gives is what is used: a field that was
/// read keeps its value whatever the machine, and only a missing field falls
/// back to its default.
pub proof fn given_fields_are_kept(b: ProcessingBuilder, cpus: usize)
    ensures
        b.max_file_size matches Some(size) ==> b.settings_for(cpus).max_file_size == size,
        b.max_file_size is None ==> b.settings_for(cpus).max_file_size == DEFAULT_MAX_FILE_SIZE,
        b.threads matches Some(n) ==> b.settings_for(cpus).threads == n,
        b.threads is None ==> b.settings_for(cpus).threads == cpus,
{
}

/// A `processing` section that is read to its end never gives zero threads:
/// each accepted `threads` value is positive (when it fits the thread count),
/// and a missing one is the CPU count, which is at least one. Chained over
/// the builder's steps, `new`, `set_max_file_size`, `set_threads` and
/// `finish` keep `threads_positive`, and this turns it into the outcome.
pub proof fn section_thread_count_is_positive(b: ProcessingBuilder, cpus: usize)
    requires
        b.threads_positive(),
        cpus >= 1,
    ensures
        b.settings_for(cpus).threads > 0,
{
}

} // verus!
