use ai_saved_manager::config::{AppConfig, ConfigError, LlmProvider};

// The file is read and parsed by the program; these check the configuration
// values that a file with the same settings gives.

#[test]
fn test_invalid_log_level() {
    let mut cfg = AppConfig::default();
    cfg.logging.level = "verbose".to_string();
    let result = cfg.validated(false);
    assert!(matches!(result, Err(ConfigError::InvalidLogLevel { .. })));
}

#[test]
fn test_defaults_applied() {
    let cfg = AppConfig::default().validated(false).unwrap();
    assert_eq!(cfg.llm.batch.size, 10);
    assert_eq!(cfg.llm.batch.max_tokens, 2048);
    assert!((f32::from_bits(cfg.llm.batch.temperature.bits) - 0.3).abs() < 1e-6);
    assert_eq!(cfg.processing.min_content_length, 20);
    assert_eq!(cfg.logging.level, "info");
}

#[test]
fn test_openai_missing_api_key() {
    // provider = "openai" with the default (local) endpoint needs no key.
    let mut cfg = AppConfig::default();
    cfg.llm.provider = LlmProvider::OpenAi;
    let result = cfg.validated(false);
    assert!(
        result.is_ok(),
        "local endpoint should not require OPENAI_API_KEY, got: {:?}",
        result
    );
}

#[test]
fn test_openai_real_endpoint_requires_api_key() {
    let mut cfg = AppConfig::default();
    cfg.llm.provider = LlmProvider::OpenAi;
    cfg.llm.endpoint = "https://api.openai.com/v1".to_string();
    let result = cfg.validated(false);
    assert!(
        matches!(result, Err(ConfigError::MissingApiKey)),
        "real OpenAI endpoint should require OPENAI_API_KEY, got: {:?}",
        result
    );
}
