use whitespace::{data_dir_for, xdg_data_dir, Config, ConfigError, ConfigSource, LogSetup, ReadOutcome};

#[test]
fn named_file_is_the_source() {
    let source = Config::locate(Some("/etc/ws.yml".to_string()), Some("/xdg".to_string()));
    assert!(matches!(source, ConfigSource::Explicit(p) if p == "/etc/ws.yml"));
}

#[test]
fn absolute_xdg_config_home_holds_the_tool_file() {
    let source = Config::locate(None, Some("/xdg/config".to_string()));
    assert!(matches!(source, ConfigSource::Primary(p) if p == "/xdg/config/whitespace/whitespace.yml"));
}

#[test]
fn relative_xdg_config_home_is_passed_over() {
    let source = Config::locate(None, Some("relative/config".to_string()));
    match source {
        ConfigSource::Primary(p) => {
            assert!(!p.starts_with("relative"));
            assert!(p.ends_with("/.config/whitespace/whitespace.yml"));
        }
        ConfigSource::Defaults => {}
        ConfigSource::Explicit(_) => panic!("no file was named"),
    }
}

#[test]
fn data_dir_follows_an_absolute_variable_only() {
    assert_eq!(xdg_data_dir(Some("/data".to_string())), Some("/data".to_string()));
    if let Some(dir) = xdg_data_dir(Some("data".to_string())) {
        assert_ne!(dir, "data");
        assert!(dir.ends_with("/.local/share"));
    }
}

#[test]
fn named_file_that_loads_is_used() {
    let mut file_config = Config::default();
    file_config.file_extensions = vec!["rs".to_string()];
    let config = Config::load(
        ConfigSource::Explicit("/etc/ws.yml".to_string()),
        ReadOutcome::Loaded(file_config),
    )
    .unwrap();
    assert_eq!(config.file_extensions, vec!["rs".to_string()]);
}

#[test]
fn named_file_that_fails_is_an_error() {
    let err = Config::load(
        ConfigSource::Explicit("/etc/ws.yml".to_string()),
        ReadOutcome::Failed("Failed to parse config file".to_string()),
    )
    .unwrap_err();
    assert_eq!(err.message(), "Failed to load config from /etc/ws.yml");
    match err {
        ConfigError::LoadFailed { path, cause } => {
            assert_eq!(path, "/etc/ws.yml");
            assert_eq!(cause, "Failed to parse config file");
        }
        ConfigError::ZeroThreads => panic!("wrong error"),
    }
    let err = Config::load(ConfigSource::Explicit("/nope.yml".to_string()), ReadOutcome::Missing)
        .unwrap_err();
    assert!(matches!(err, ConfigError::LoadFailed { cause, .. } if cause == "Failed to read config file"));
}

#[test]
fn own_file_is_used_when_it_loads() {
    let mut file_config = Config::default();
    file_config.exclude_files = vec![];
    let config = Config::load(
        ConfigSource::Primary("/home/u/.config/whitespace/whitespace.yml".to_string()),
        ReadOutcome::Loaded(file_config),
    )
    .unwrap();
    assert!(config.exclude_files.is_empty());
}

#[test]
fn own_file_that_fails_or_is_missing_leaves_the_defaults() {
    let source = || ConfigSource::Primary("/home/u/.config/whitespace/whitespace.yml".to_string());
    let config = Config::load(source(), ReadOutcome::Failed("bad".to_string())).unwrap();
    assert_eq!(config.exclude_files.len(), 5);
    let config = Config::load(source(), ReadOutcome::Missing).unwrap();
    assert_eq!(config.exclude_paths.len(), 25);
    let config = Config::load(ConfigSource::Defaults, ReadOutcome::Missing).unwrap();
    assert_eq!(config.processing.threads, num_cpus::get());
}

#[test]
fn log_goes_under_the_data_dir() {
    let setup = LogSetup::new(Some("/data".to_string()), None);
    assert_eq!(setup.log_dir, "/data/whitespace/logs");
    assert_eq!(setup.log_file, "/data/whitespace/logs/whitespace.log");
    assert_eq!(setup.filter, "info");
    let setup = LogSetup::new(Some("/data".to_string()), Some("debug".to_string()));
    assert_eq!(setup.filter, "debug");
}

#[test]
fn home_fallbacks_join_under_the_home_directory() {
    assert_eq!(
        data_dir_for(None, Some("/home/u".to_string())),
        Some("/home/u/.local/share".to_string())
    );
    assert_eq!(
        data_dir_for(Some("rel".to_string()), Some("/home/u".to_string())),
        Some("/home/u/.local/share".to_string())
    );
    assert_eq!(data_dir_for(Some("/d".to_string()), Some("/home/u".to_string())), Some("/d".to_string()));
    assert_eq!(data_dir_for(Some(String::new()), None), None);
    let source = Config::locate_with_home(None, None, Some("/home/u".to_string()));
    assert!(matches!(source, ConfigSource::Primary(p) if p == "/home/u/.config/whitespace/whitespace.yml"));
    let source = Config::locate_with_home(None, Some(String::new()), Some("/home/u".to_string()));
    assert!(matches!(source, ConfigSource::Primary(p) if p == "/home/u/.config/whitespace/whitespace.yml"));
    assert!(matches!(Config::locate_with_home(None, None, None), ConfigSource::Defaults));
    let source = Config::locate_with_home(Some("a.yml".to_string()), None, Some("/home/u".to_string()));
    assert!(matches!(source, ConfigSource::Explicit(p) if p == "a.yml"));
}

#[test]
fn log_goes_to_the_current_directory_without_a_data_dir() {
    let setup = LogSetup::for_data_dir(None, None);
    assert_eq!(setup.log_dir, "./whitespace/logs");
    assert_eq!(setup.log_file, "./whitespace/logs/whitespace.log");
    let setup = LogSetup::for_data_dir(Some("/home/u/.local/share".to_string()), Some("warn".to_string()));
    assert_eq!(setup.log_file, "/home/u/.local/share/whitespace/logs/whitespace.log");
    assert_eq!(setup.filter, "warn");
}
