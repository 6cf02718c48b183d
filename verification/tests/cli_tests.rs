use ai_saved_manager::cli::{
    classify_error, export_format, import_source, openai_base_url, parse_log_level, ErrorOrigin,
    ExportFormat, ImportSource,
};
use ai_saved_manager::config::ConfigError;

#[test]
fn test_invalid_log_level_error_message() {
    let err = ConfigError::InvalidLogLevel {
        value: "verbose".to_string(),
    };
    let msg = err.message();
    assert!(
        msg.contains("verbose"),
        "error message should contain the invalid value; got: {msg}"
    );
    assert!(
        msg.contains("error") && msg.contains("warn") && msg.contains("info")
            && msg.contains("debug") && msg.contains("trace"),
        "error message should list all valid levels; got: {msg}"
    );
}

#[test]
fn test_log_level_string_parsing() {
    assert_eq!(parse_log_level("error"), tracing::Level::ERROR);
    assert_eq!(parse_log_level("warn"), tracing::Level::WARN);
    assert_eq!(parse_log_level("info"), tracing::Level::INFO);
    assert_eq!(parse_log_level("debug"), tracing::Level::DEBUG);
    assert_eq!(parse_log_level("trace"), tracing::Level::TRACE);
}

#[test]
fn test_unknown_log_level_defaults_to_info() {
    assert_eq!(parse_log_level("unknown"), tracing::Level::INFO);
}

#[test]
fn test_info_level_pipeline_stage_logging() {
    let info_level = tracing::Level::INFO;
    assert!(tracing::Level::INFO >= info_level);
    assert!(tracing::Level::DEBUG >= info_level);
    assert!(tracing::Level::TRACE >= info_level);

    assert!(tracing::Level::WARN < info_level);
    assert!(tracing::Level::ERROR < info_level);
}

#[test]
fn test_debug_level_llm_payload_logging() {
    let debug_level = tracing::Level::DEBUG;

    assert!(tracing::Level::DEBUG >= debug_level);
    assert!(tracing::Level::TRACE >= debug_level);

    assert!(tracing::Level::INFO < debug_level);
    assert!(tracing::Level::WARN < debug_level);
    assert!(tracing::Level::ERROR < debug_level);
}

#[test]
fn only_the_lowercase_names_select_a_level() {
    // Other spellings that tracing itself would read fall back to INFO.
    assert_eq!(parse_log_level("DEBUG"), tracing::Level::INFO);
    assert_eq!(parse_log_level("5"), tracing::Level::INFO);
    assert_eq!(parse_log_level(""), tracing::Level::INFO);
}

#[test]
fn import_source_accepts_only_facebook() {
    assert_eq!(import_source("facebook"), Ok(ImportSource::Facebook));
    assert_eq!(
        import_source("twitter"),
        Err("unknown import source 'twitter'; supported: facebook".to_string())
    );
}

#[test]
fn export_format_accepts_json_and_sqlite() {
    assert_eq!(export_format("json"), Ok(ExportFormat::Json));
    assert_eq!(export_format("sqlite"), Ok(ExportFormat::Sqlite));
    assert_eq!(
        export_format("csv"),
        Err("unknown export format 'csv'; supported: json, sqlite".to_string())
    );
}

#[test]
fn openai_base_url_only_for_other_servers() {
    assert_eq!(openai_base_url("https://api.openai.com/v1"), None);
    assert_eq!(
        openai_base_url("http://localhost:1234/v1"),
        Some("http://localhost:1234/v1".to_string())
    );
}

#[test]
fn exit_codes_follow_error_kinds() {
    assert_eq!(classify_error(ErrorOrigin::Config, "anything"), 1);
    assert_eq!(classify_error(ErrorOrigin::DatasetNotFound, "x"), 1);
    assert_eq!(classify_error(ErrorOrigin::Other, "dataset 'demo' not found"), 1);
    assert_eq!(classify_error(ErrorOrigin::Other, "unknown import source 'x'; supported: facebook"), 1);
    assert_eq!(classify_error(ErrorOrigin::Other, "unknown export format 'x'"), 1);
    assert_eq!(classify_error(ErrorOrigin::Other, "database error: disk I/O error"), 2);
}
