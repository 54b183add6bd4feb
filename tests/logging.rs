use llmdocs::logging::{LogConfig, LogLevel};

#[test]
fn test_loglevel_from_str() {
    assert_eq!(LogLevel::from_str("trace"), Ok(LogLevel::Trace));
    assert_eq!(LogLevel::from_str("DEBUG"), Ok(LogLevel::Debug));
    assert_eq!(LogLevel::from_str("Info"), Ok(LogLevel::Info));
    assert_eq!(LogLevel::from_str("warn"), Ok(LogLevel::Warn));
    assert_eq!(LogLevel::from_str("error"), Ok(LogLevel::Error));
    assert_eq!(LogLevel::from_str("FATAL"), Ok(LogLevel::Fatal));
    assert!(LogLevel::from_str("invalid").is_err());
}

#[test]
fn test_loglevel_to_tracing_level() {
    assert_eq!(LogLevel::Trace.to_tracing_level(), tracing::Level::TRACE);
    assert_eq!(LogLevel::Debug.to_tracing_level(), tracing::Level::DEBUG);
    assert_eq!(LogLevel::Info.to_tracing_level(), tracing::Level::INFO);
    assert_eq!(LogLevel::Warn.to_tracing_level(), tracing::Level::WARN);
    assert_eq!(LogLevel::Error.to_tracing_level(), tracing::Level::ERROR);
    assert_eq!(LogLevel::Fatal.to_tracing_level(), tracing::Level::ERROR);
}

#[test]
fn loglevel_invalid_message_names_the_input() {
    assert_eq!(LogLevel::from_str("loud"), Err("Invalid log level: loud".to_string()));
}

#[test]
fn loglevel_as_str_names() {
    assert_eq!(LogLevel::Trace.as_str(), "trace");
    assert_eq!(LogLevel::Fatal.as_str(), "fatal");
    assert_eq!(LogLevel::Warn.as_str(), "warn");
}

#[test]
fn log_config_default_values() {
    let c = LogConfig::default();
    assert!(c.enabled);
    assert_eq!(c.level_console, LogLevel::Info);
    assert_eq!(c.level_file, LogLevel::Debug);
    assert_eq!(c.file_path, "~/.llmdocs/logs/");
    assert_eq!(c.file_name_prefix, "llmdoc.log");
}
