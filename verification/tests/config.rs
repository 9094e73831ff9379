use whitespace::{
    BinaryDetection, Config, ProcessingBuilder, ProcessingField, ProcessingSettings,
    SettingsError, ThreadsValue,
};

/// The plain view of a YAML value given for `threads`.
fn threads_value(value: &serde_yaml::Value) -> ThreadsValue {
    match value {
        serde_yaml::Value::Number(n) => match n.as_u64() {
            Some(u) => ThreadsValue::Integer(u),
            None => ThreadsValue::OtherNumber,
        },
        serde_yaml::Value::String(s) => ThreadsValue::Text(s.clone()),
        _ => ThreadsValue::Other,
    }
}

/// Reads the `processing` section of a YAML document field by field, as the
/// tool's deserializer does.
fn processing_from_yaml(yaml: &str) -> Result<ProcessingSettings, SettingsError> {
    let doc: serde_yaml::Value = serde_yaml::from_str(yaml).unwrap();
    let mut builder = ProcessingBuilder::new();
    if let Some(section) = doc.get("processing").and_then(|v| v.as_mapping()) {
        for (key, value) in section {
            let field = match key.as_str() {
                Some("max-file-size") => ProcessingField::MaxFileSize,
                Some("threads") => ProcessingField::Threads,
                other => panic!("unexpected key {:?}", other),
            };
            builder.check_field(field)?;
            match field {
                ProcessingField::MaxFileSize => builder.set_max_file_size(value.as_u64().unwrap()),
                ProcessingField::Threads => builder.set_threads(threads_value(value))?,
            }
        }
    }
    Ok(builder.finish())
}

fn config_from_yaml(yaml: &str) -> Result<Config, SettingsError> {
    let processing = processing_from_yaml(yaml)?;
    let mut config = Config::default();
    config.processing = processing;
    Ok(config)
}

#[test]
fn test_threads_config_nproc() {
    let yaml = r#"
processing:
  threads: nproc
  max-file-size: 1000000
"#;
    let config = config_from_yaml(yaml).unwrap();
    assert_eq!(config.processing.threads, num_cpus::get());
    assert_eq!(config.processing.max_file_size, 1000000);
}

#[test]
fn test_threads_config_numeric() {
    let yaml = r#"
processing:
  threads: 8
  max-file-size: 2000000
"#;
    let config = config_from_yaml(yaml).unwrap();
    assert_eq!(config.processing.threads, 8);
    assert_eq!(config.processing.max_file_size, 2000000);
}

#[test]
fn test_threads_config_invalid_string() {
    let yaml = r#"
processing:
  threads: "invalid"
"#;
    let result = config_from_yaml(yaml);
    assert!(result.is_err());
    let error_msg = result.unwrap_err().message();
    assert!(error_msg.contains("invalid thread value"));
}

#[test]
fn test_threads_config_zero() {
    let yaml = r#"
processing:
  threads: 0
"#;
    let result = config_from_yaml(yaml);
    assert!(result.is_err());
    let error_msg = result.unwrap_err().message();
    assert!(error_msg.contains("threads must be greater than 0"));
}

#[test]
fn test_threads_config_defaults() {
    let yaml = r#"
processing:
  max-file-size: 5000000
"#;
    let config = config_from_yaml(yaml).unwrap();
    assert_eq!(config.processing.threads, num_cpus::get());
    assert_eq!(config.processing.max_file_size, 5000000);
}

#[test]
fn duplicate_field_is_refused_before_its_value_is_read() {
    let mut builder = ProcessingBuilder::new();
    assert!(builder.check_field(ProcessingField::Threads).is_ok());
    assert!(builder.set_threads(ThreadsValue::Integer(2)).is_ok());
    let err = builder.check_field(ProcessingField::Threads).unwrap_err();
    assert!(matches!(err, SettingsError::DuplicateField(ProcessingField::Threads)));
    assert_eq!(err.message(), "duplicate field `threads`");
    assert!(builder.check_field(ProcessingField::MaxFileSize).is_ok());
    builder.set_max_file_size(7);
    let err = builder.check_field(ProcessingField::MaxFileSize).unwrap_err();
    assert_eq!(err.message(), "duplicate field `max-file-size`");
}

#[test]
fn refused_threads_value_leaves_the_section_unchanged() {
    let mut builder = ProcessingBuilder::new();
    assert!(builder.set_threads(ThreadsValue::Integer(3)).is_ok());
    assert!(builder.set_threads(ThreadsValue::Other).is_err());
    assert_eq!(builder.threads, Some(3));
    assert_eq!(builder.max_file_size, None);
}

#[test]
fn empty_section_gives_the_defaults() {
    let settings = ProcessingBuilder::new().finish();
    assert_eq!(settings.max_file_size, 100 * 1024 * 1024);
    assert_eq!(settings.threads, num_cpus::get());
}

#[test]
fn processing_defaults() {
    let settings = ProcessingSettings::default();
    assert_eq!(settings.max_file_size, 104857600);
    assert_eq!(settings.threads, num_cpus::get());
    assert!(settings.threads >= 1);
}

#[test]
fn binary_detection_defaults() {
    let detection = BinaryDetection::default();
    assert!(detection.check_null_bytes);
    assert_eq!(detection.sample_size, 8192);
}

#[test]
fn config_defaults() {
    let config = Config::default();
    assert!(config.file_extensions.is_empty());
    assert_eq!(config.exclude_paths.len(), 25);
    assert_eq!(config.exclude_paths[0], ".git/**");
    assert_eq!(config.exclude_paths[24], "vendor/**");
    assert!(config.exclude_paths.iter().any(|p| p == "node_modules/**"));
    assert_eq!(
        config.exclude_files,
        vec!["*.min.js", "*.min.css", "*.bundle.*", "*.lock", "*.log"]
    );
    assert_eq!(config.exclude_binary_extensions.len(), 42);
    assert_eq!(config.exclude_binary_extensions[0], "*.exe");
    assert_eq!(config.exclude_binary_extensions[41], "*.jar");
    assert!(config.binary_detection.check_null_bytes);
    assert_eq!(config.binary_detection.sample_size, 8192);
    assert_eq!(config.processing.max_file_size, 104857600);
    assert_eq!(config.processing.threads, num_cpus::get());
}

#[test]
fn accepted_thread_counts_keep_the_section_positive() {
    let mut builder = ProcessingBuilder::new();
    assert!(builder.set_threads(ThreadsValue::Integer(0)).is_err());
    assert_eq!(builder.threads, None);
    assert!(builder.set_threads(ThreadsValue::Text("nproc".to_string())).is_ok());
    assert!(builder.threads.unwrap() >= 1);
    assert!(builder.finish().threads > 0);
}
