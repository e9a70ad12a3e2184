use mefirst::config::{PatternConfig, PatternType};
use mefirst::plugin::matcher::PatternMatcher;

#[test]
fn test_exact_match() {
    let config = PatternConfig { pattern: "test".to_string(), pattern_type: PatternType::Exact };
    let matcher = PatternMatcher::from_config(&config).unwrap();

    assert!(matcher.matches("test"));
    assert!(!matcher.matches("test2"));
    assert!(!matcher.matches("tes"));
}

#[test]
fn test_glob_match() {
    let config = PatternConfig { pattern: "/usr/bin/*".to_string(), pattern_type: PatternType::Glob };
    let matcher = PatternMatcher::from_config(&config).unwrap();

    assert!(matcher.matches("/usr/bin/curl"));
    assert!(matcher.matches("/usr/bin/wget"));
    assert!(!matcher.matches("/usr/local/bin/curl"));
}

#[test]
fn test_regex_match() {
    let config = PatternConfig { pattern: r"^/usr/bin/.*$".to_string(), pattern_type: PatternType::Regex };
    let matcher = PatternMatcher::from_config(&config).unwrap();

    assert!(matcher.matches("/usr/bin/curl"));
    assert!(matcher.matches("/usr/bin/wget"));
    assert!(!matcher.matches("/usr/local/bin/curl"));
}

#[test]
fn test_invalid_regex() {
    let config = PatternConfig { pattern: "[invalid".to_string(), pattern_type: PatternType::Regex };

    assert!(PatternMatcher::from_config(&config).is_err());
}

#[test]
fn test_invalid_glob_rejected() {
    let config = PatternConfig { pattern: "[".to_string(), pattern_type: PatternType::Glob };
    let err = PatternMatcher::from_config(&config).unwrap_err();
    assert!(err.starts_with("Invalid glob pattern: "));
}

#[test]
fn test_matcher_reports_pattern_and_type() {
    let m = PatternMatcher::new("/a/*".to_string(), PatternType::Glob).unwrap();
    assert_eq!(m.pattern(), "/a/*");
    assert_eq!(m.pattern_type(), PatternType::Glob);
    let m = PatternMatcher::new("/a".to_string(), PatternType::Exact).unwrap();
    assert_eq!(m.pattern(), "/a");
    assert_eq!(m.pattern_type(), PatternType::Exact);
}
