//! The configuration defaults, validation rules, and log-level parsing.
use update_agent::config::AgentConfig;
use update_agent::config::LoggingConfig;
use update_agent::logging::parse_log_level;
use update_agent::logging::LogLevel;

#[test]
fn test_default_config_validation() {
    let config = AgentConfig::default();
    assert!(config.validate().is_ok());
}

#[test]
fn test_invalid_log_level() {
    let mut config = AgentConfig::default();
    config.logging.level = "invalid".to_string();
    assert!(config.validate().is_err());
}

#[test]
fn test_parse_log_level() {
    assert_eq!(parse_log_level("trace").unwrap(), LogLevel::Trace);
    assert_eq!(parse_log_level("DEBUG").unwrap(), LogLevel::Debug);
    assert_eq!(parse_log_level("Info").unwrap(), LogLevel::Info);
    assert_eq!(parse_log_level("warn").unwrap(), LogLevel::Warn);
    assert_eq!(parse_log_level("warning").unwrap(), LogLevel::Warn);
    assert_eq!(parse_log_level("error").unwrap(), LogLevel::Error);

    assert!(parse_log_level("invalid").is_err());
}

#[test]
fn test_logging_config_validation() {
    let config = LoggingConfig {
        level: "info".to_string(),
        format: "json".to_string(),
        file: None,
        max_size_mb: 100,
        max_files: 5,
    };

    assert!(parse_log_level(&config.level).is_ok());

    assert!(matches!(config.format.as_str(), "json" | "text"));
}

#[test]
fn test_empty_backend_url_is_rejected() {
    let mut config = AgentConfig::default();
    config.backend.url = String::new();
    let err = config.validate().unwrap_err();
    assert_eq!(err.message, "Backend URL cannot be empty");
}

#[test]
fn test_zero_timeout_is_rejected() {
    let mut config = AgentConfig::default();
    config.backend.timeout_seconds = 0;
    let err = config.validate().unwrap_err();
    assert_eq!(err.message, "Backend timeout must be > 0");
}

#[test]
fn test_invalid_log_format_message() {
    let mut config = AgentConfig::default();
    config.logging.format = "xml".to_string();
    let err = config.validate().unwrap_err();
    assert_eq!(err.message, "Invalid log format: xml");
}

#[test]
fn test_invalid_log_level_message() {
    let mut config = AgentConfig::default();
    config.logging.level = "loud".to_string();
    let err = config.validate().unwrap_err();
    assert_eq!(err.message, "Invalid log level: loud");
}

#[test]
fn test_default_config_values() {
    let config = AgentConfig::default();
    assert_eq!(config.backend.url, "http://localhost:8080");
    assert_eq!(config.backend.timeout_seconds, 30);
    assert_eq!(config.backend.retry_attempts, 3);
    assert_eq!(config.backend.retry_delay_seconds, 5);
    assert!(config.updates.update_sources.apt);
    assert!(config.updates.update_sources.snap);
    assert!(!config.updates.update_sources.flatpak);
    assert!(!config.updates.dry_run);
    assert!(config.security.verify_server_cert);
    assert!(!config.security.use_mtls);
}

#[test]
fn test_case_insensitive_level_parsing() {
    assert_eq!(parse_log_level("TRACE").unwrap(), LogLevel::Trace);
    assert_eq!(parse_log_level("WaRnInG").unwrap(), LogLevel::Warn);
    let err = parse_log_level("warned").unwrap_err();
    assert_eq!(err.message, "Invalid log level: warned");
}
