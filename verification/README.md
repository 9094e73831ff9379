# whitespace configuration

The configuration layer of the `whitespace` tool, verified with Verus.

- `src/config.rs`: the settings of the YAML file, their defaults, and the
  field-by-field reading of the `processing` section (a field may appear once;
  missing fields take their defaults).
- `src/threads.rs`: what a value given for `threads` means (a positive
  integer, or `nproc` for the CPU count) and the messages of refused values.
- `src/loading.rs`: the XDG directories, where the configuration file is
  looked for, and what loading leaves a run with.
- `src/runtime.rs`: the command line merged with the file into the settings
  of a run.
- `src/logging.rs`: where the log goes and at which level.
- `src/outside.rs`: the calls into `num_cpus`, `dirs` and `std::path`, with
  the contracts that are trusted of them.
- `app/main.rs`: the program: command-line parsing (clap), reading and
  parsing the file (serde, serde_yaml), logging (log, env_logger), errors
  (eyre).
