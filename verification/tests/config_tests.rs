use errox::{Config, ConfigError, LogLevel};

#[test]
fn loads_a_well_formed_document() {
    let doc = "time = true\nlog_level = { type = \"Warning\" }";
    assert_eq!(
        errox::load_config(Some(doc)),
        Ok(Config { time: true, log_level: LogLevel::Warning })
    );
}

#[test]
fn loads_table_syntax_too() {
    let doc = "time = false\n[log_level]\ntype = \"Info\"";
    assert_eq!(
        errox::load_config(Some(doc)),
        Ok(Config { time: false, log_level: LogLevel::Info })
    );
}

#[test]
fn missing_file_is_a_read_error() {
    assert_eq!(errox::load_config(None), Err(ConfigError::Io));
}

#[test]
fn malformed_document_is_a_format_error() {
    assert_eq!(errox::load_config(Some("not toml [")), Err(ConfigError::Format));
}

#[test]
fn wrong_field_type_is_a_format_error() {
    let doc = "time = 3\nlog_level = { type = \"Error\" }";
    assert_eq!(errox::load_config(Some(doc)), Err(ConfigError::Format));
}

#[test]
fn missing_field_is_a_format_error() {
    assert_eq!(
        errox::load_config(Some("log_level = { type = \"Error\" }")),
        Err(ConfigError::Format)
    );
    assert_eq!(errox::load_config(Some("time = true")), Err(ConfigError::Format));
}

#[test]
fn unknown_severity_name_is_a_format_error() {
    let doc = "time = true\nlog_level = { type = \"Fatal\" }";
    assert_eq!(errox::load_config(Some(doc)), Err(ConfigError::Format));
}

#[test]
fn severity_names_resolve() {
    assert_eq!(errox::level_from_name("Error"), Some(LogLevel::Error));
    assert_eq!(errox::level_from_name("Warning"), Some(LogLevel::Warning));
    assert_eq!(errox::level_from_name("Info"), Some(LogLevel::Info));
    assert_eq!(errox::level_from_name("Debug"), Some(LogLevel::Debug));
    assert_eq!(errox::level_from_name("Trace"), Some(LogLevel::Trace));
    assert_eq!(errox::level_from_name("error"), None);
    assert_eq!(errox::level_from_name(""), None);
}

#[test]
fn missing_file_resolves_to_the_fallback_with_one_diagnostic() {
    let (config, diag) = errox::resolve_config(None);
    assert_eq!(config, Config { time: true, log_level: LogLevel::Trace });
    let line = diag.expect("a load failure must produce a diagnostic");
    assert!(line.contains("Could not load config file, falling back to default."));
    assert!(line.ends_with("the config file could not be read"));
}

#[test]
fn successful_resolution_has_no_diagnostic() {
    let doc = "time = false\nlog_level = { type = \"Error\" }";
    let (config, diag) = errox::resolve_config(Some(doc));
    assert_eq!(config, Config { time: false, log_level: LogLevel::Error });
    assert!(diag.is_none());
}

#[test]
fn resolution_is_resolved_once_and_reused() {
    let mut cell = errox::ConfigCell::new();
    let (first, diag) = cell.get_or_init(None);
    assert_eq!(first, Config { time: true, log_level: LogLevel::Trace });
    assert!(diag.is_some());
    let (second, diag2) = cell.get_or_init(Some("time = false\nlog_level = { type = \"Error\" }"));
    assert_eq!(second, first);
    assert!(diag2.is_none());
    let (third, diag3) = cell.get_or_init(None);
    assert_eq!(third, first);
    assert!(diag3.is_none());
}

#[test]
fn default_configuration_is_the_hardcoded_fallback() {
    assert_eq!(Config::default(), Config { time: true, log_level: LogLevel::Trace });
}

#[test]
fn bootstrap_uses_the_resolved_configuration() {
    let doc = "time = true\nlog_level = { type = \"Debug\" }";
    let logger = errox::Logger::init(Some(doc)).expect("the clock should be readable");
    assert_eq!(logger.config, Config { time: true, log_level: LogLevel::Debug });
    let fallback_logger = errox::Logger::init(None).expect("the clock should be readable");
    assert_eq!(
        fallback_logger.config,
        Config { time: true, log_level: LogLevel::Trace }
    );
}
