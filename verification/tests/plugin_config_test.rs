use mefirst::config::{PatternConfig, PatternType, PluginConfig, ResponseSource};
use std::io::Write;
use tempfile::NamedTempFile;

fn command_config(pattern: &str, pattern_type: PatternType, command: &str) -> PluginConfig {
    PluginConfig {
        pattern: pattern.to_string(),
        pattern_type,
        response_source: ResponseSource::Command { command: command.to_string(), args: vec![] },
        status_code: 200,
        timeout_secs: None,
        uid: None,
        username: None,
        executable_pattern: None,
        cmdline_pattern: None,
        host_pattern: None,
        proxy_request_stdin: None,
    }
}

fn file_config(pattern: &str, path: &str) -> PluginConfig {
    PluginConfig {
        pattern: pattern.to_string(),
        pattern_type: PatternType::Exact,
        response_source: ResponseSource::File { path: path.to_string() },
        status_code: 200,
        timeout_secs: None,
        uid: None,
        username: None,
        executable_pattern: None,
        cmdline_pattern: None,
        host_pattern: None,
        proxy_request_stdin: None,
    }
}

#[test]
fn test_validate_empty_pattern() {
    let config = command_config("", PatternType::Exact, "echo test");
    assert!(config.validate().is_err());
}

#[test]
fn test_validate_invalid_regex() {
    let config = command_config("[invalid", PatternType::Regex, "echo test");
    assert!(config.validate().is_err());
}

#[test]
fn test_validate_valid_regex() {
    let config = command_config(r"^/test/.*$", PatternType::Regex, "echo test");
    assert!(config.validate().is_ok());
}

#[test]
fn test_validate_nonexistent_file() {
    let config = file_config("/test", "/nonexistent/file.txt");
    assert!(config.validate().is_err());
}

#[test]
fn test_validate_valid_file() {
    let mut temp_file = NamedTempFile::new().unwrap();
    temp_file.write_all(b"test content").unwrap();
    let config = file_config("/test", temp_file.path().to_str().unwrap());
    assert!(config.validate().is_ok());
}

#[test]
fn test_validate_empty_command() {
    let config = command_config("/test", PatternType::Exact, "");
    assert!(config.validate().is_err());
}

#[test]
fn test_validate_invalid_status_code() {
    let mut config = command_config("/test", PatternType::Exact, "echo test");
    config.status_code = 999;
    assert!(config.validate().is_err());
}

#[test]
fn test_validate_zero_timeout() {
    let mut config = command_config("/test", PatternType::Exact, "echo test");
    config.timeout_secs = Some(0);
    assert!(config.validate().is_err());
}

#[test]
fn test_response_source_type() {
    let mut temp_file = NamedTempFile::new().unwrap();
    temp_file.write_all(b"test").unwrap();
    let file_config = file_config("/test", temp_file.path().to_str().unwrap());
    assert_eq!(file_config.response_source_type(), "file");
    let command_config = command_config("/test", PatternType::Exact, "echo test");
    assert_eq!(command_config.response_source_type(), "command");
}

#[test]
fn test_validation_error_messages() {
    let config = command_config("", PatternType::Exact, "echo test");
    assert_eq!(config.validate().unwrap_err().message(), "Plugin configuration error: Plugin pattern cannot be empty");
    let mut config = command_config("/test", PatternType::Exact, "echo test");
    config.status_code = 999;
    assert_eq!(config.validate_with(true, true).unwrap_err().message(), "Plugin configuration error: Invalid HTTP status code: 999");
    let config = file_config("/test", "/nonexistent/file.txt");
    assert_eq!(
        config.validate_with(false, false).unwrap_err().message(),
        "Plugin configuration error: Response file does not exist: \"/nonexistent/file.txt\""
    );
    assert_eq!(
        config.validate_with(true, false).unwrap_err().message(),
        "Plugin configuration error: Response path is not a file: \"/nonexistent/file.txt\""
    );
    assert!(config.validate_with(true, true).is_ok());
    let mut config = command_config("[invalid", PatternType::Regex, "echo");
    assert!(config.validate_with(true, true).unwrap_err().message().starts_with("Plugin configuration error: Invalid regex pattern: "));
    config.pattern = "/ok".to_string();
    config.pattern_type = PatternType::Exact;
    config.proxy_request_stdin = Some(true);
    assert!(config.validate_with(true, true).is_ok());
}

#[test]
fn test_proxy_request_stdin_only_with_command_sources() {
    let mut temp_file = NamedTempFile::new().unwrap();
    temp_file.write_all(b"test").unwrap();
    let mut valid_config = command_config("/test", PatternType::Exact, "cat");
    valid_config.timeout_secs = Some(5);
    valid_config.proxy_request_stdin = Some(true);
    assert!(valid_config.validate().is_ok());

    let mut invalid_config = file_config("/test", temp_file.path().to_str().unwrap());
    invalid_config.proxy_request_stdin = Some(true);
    let result = invalid_config.validate();
    assert!(result.is_err());
    assert!(result.unwrap_err().message().contains("proxy_request_stdin"));
}

#[test]
fn test_nonexistent_file_validation() {
    let config = file_config("/test", "/nonexistent/file.txt");
    let result = config.validate();
    assert!(result.is_err());
}

#[test]
fn test_executable_pattern_requires_pattern_type() {
    let mut temp_file = NamedTempFile::new().unwrap();
    temp_file.write_all(b"test").unwrap();
    let mut config = file_config("/test", temp_file.path().to_str().unwrap());
    config.executable_pattern =
        Some(PatternConfig { pattern: "/usr/bin/curl".to_string(), pattern_type: PatternType::Exact });

    // Should validate successfully with pattern_type
    assert!(config.validate().is_ok());
}

#[test]
fn test_cmdline_pattern_requires_pattern_type() {
    let mut temp_file = NamedTempFile::new().unwrap();
    temp_file.write_all(b"test").unwrap();
    let mut config = file_config("/test", temp_file.path().to_str().unwrap());
    config.cmdline_pattern = Some(PatternConfig { pattern: "curl*".to_string(), pattern_type: PatternType::Glob });

    // Should validate successfully with pattern_type
    assert!(config.validate().is_ok());
}

#[test]
fn test_host_pattern_requires_pattern_type() {
    let mut temp_file = NamedTempFile::new().unwrap();
    temp_file.write_all(b"test").unwrap();
    let mut config = file_config("/test", temp_file.path().to_str().unwrap());
    config.host_pattern =
        Some(PatternConfig { pattern: "*.example.com".to_string(), pattern_type: PatternType::Glob });

    // Should validate successfully with pattern_type
    assert!(config.validate().is_ok());
}

#[test]
fn test_invalid_regex_patterns_rejected() {
    let mut temp_file = NamedTempFile::new().unwrap();
    temp_file.write_all(b"test").unwrap();
    let mut config = file_config("[invalid", temp_file.path().to_str().unwrap());
    config.pattern_type = PatternType::Regex;

    // Should fail validation due to invalid regex
    let result = config.validate();
    assert!(result.is_err());
}

#[test]
fn test_descriptive_errors_for_validation_failures() {
    let mut temp_file = NamedTempFile::new().unwrap();
    temp_file.write_all(b"test").unwrap();
    let mut config = file_config("[invalid", temp_file.path().to_str().unwrap());
    config.pattern_type = PatternType::Regex;

    let result = config.validate();
    assert!(result.is_err());
    let error_msg = result.unwrap_err().message();
    // Error should mention regex or pattern
    assert!(error_msg.contains("regex") || error_msg.contains("pattern") || error_msg.contains("invalid"));
}

#[test]
fn test_empty_pattern_validation() {
    let mut temp_file = NamedTempFile::new().unwrap();
    temp_file.write_all(b"test").unwrap();
    let config = file_config("", temp_file.path().to_str().unwrap());

    let result = config.validate();
    assert!(result.is_err());
}
