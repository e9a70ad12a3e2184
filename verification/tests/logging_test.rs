use mefirst::logging::{LogFormat, LogLevel, LoggingConfig};

#[test]
fn test_log_format_from_str() {
    assert_eq!("text".parse::<LogFormat>().unwrap(), LogFormat::Text);
    assert_eq!("pretty".parse::<LogFormat>().unwrap(), LogFormat::Text);
    assert_eq!("json".parse::<LogFormat>().unwrap(), LogFormat::Json);
    assert_eq!("TEXT".parse::<LogFormat>().unwrap(), LogFormat::Text);
    assert_eq!("JSON".parse::<LogFormat>().unwrap(), LogFormat::Json);
    assert!("invalid".parse::<LogFormat>().is_err());
}

#[test]
fn test_log_format_error_text() {
    assert_eq!("Xml".parse::<LogFormat>().unwrap_err(), "Invalid log format: Xml");
    assert_eq!(LogFormat::default(), LogFormat::Text);
}

#[test]
fn test_logging_config_builder() {
    let config = LoggingConfig::new(LogLevel::Debug)
        .with_format(LogFormat::Json)
        .with_span_events()
        .with_location(false)
        .with_thread_ids(true);

    assert_eq!(config.level, LogLevel::Debug);
    assert_eq!(config.format, LogFormat::Json);
    assert!(config.span_events);
    assert!(!config.with_location);
    assert!(config.with_thread_ids);
}

#[test]
fn test_logging_config_builder_leaves_other_fields() {
    let config = LoggingConfig::default().with_thread_names(true).with_target(false);
    assert!(config.with_thread_names);
    assert!(!config.with_target);
    assert_eq!(config.level, LogLevel::Info);
    assert_eq!(config.format, LogFormat::Text);
    assert!(config.with_location);
    assert_eq!(LogLevel::Warn.as_str(), "WARN");
}

#[test]
fn logging_test_default_config() {
    let config = LoggingConfig::default();
    assert_eq!(config.level, LogLevel::Info);
    assert_eq!(config.format, LogFormat::Text);
    assert!(!config.span_events);
    assert!(config.with_location);
    assert!(!config.with_thread_ids);
    assert!(!config.with_thread_names);
    assert!(config.with_target);
}

#[test]
fn test_default_filter_and_effective_format() {
    assert_eq!(LoggingConfig::default().default_filter(), "mefirst=INFO");
    assert_eq!(LoggingConfig::new(LogLevel::Trace).default_filter(), "mefirst=TRACE");
    let config = LoggingConfig::default();
    assert_eq!(config.effective_format(None), LogFormat::Text);
    assert_eq!(config.effective_format(Some("JSON")), LogFormat::Json);
    assert_eq!(config.effective_format(Some("yaml")), LogFormat::Text);
    let json = LoggingConfig::default().with_format(LogFormat::Json);
    assert_eq!(json.effective_format(Some("pretty")), LogFormat::Text);
    assert_eq!(json.effective_format(Some("nonsense")), LogFormat::Json);
}
