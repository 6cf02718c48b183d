//! Application configuration: the documented defaults, and the checks that a
//! loaded configuration must pass.

use vstd::prelude::*;
use crate::models::Binary32;
use crate::text::{contains, contains_str, has_prefix, same_str};
use vstd::string::StringExecFns;

verus! {

/// `std::io::Error`, carried by a configuration file that cannot be read.
#[verifier::external_type_specification]
#[verifier::external_body]
pub struct ExIoError(std::io::Error);

/// `toml::de::Error`, carried by a configuration file that does not parse.
#[verifier::external_type_specification]
#[verifier::external_body]
pub struct ExTomlError(toml::de::Error);

/// Errors in loading the configuration.
#[derive(Debug)]
pub enum ConfigError {
    NotFound { path: String, source: std::io::Error },
    ParseError(toml::de::Error),
    MissingApiKey,
    InvalidLogLevel { value: String },
}

/// The text of an I/O error (its `Display` form).  It depends on the
/// operating system and its locale, so nothing is stated of it.
#[verifier::external_body]
fn io_error_text(e: &std::io::Error) -> String {
    e.to_string()
}

/// The text of a TOML parse error (its `Display` form); the contract states
/// nothing of it.
#[verifier::external_body]
fn toml_error_text(e: &toml::de::Error) -> String {
    e.to_string()
}

/// The fixed part of the message for an unknown log level, after the value.
pub open spec fn log_level_message_tail() -> Seq<char> {
    "'; valid values are: error, warn, info, debug, trace"@
}

impl ConfigError {
    /// The message of this error, as its display form reads.
    pub fn message(&self) -> (r: String)
        ensures
            match self {
                ConfigError::NotFound { path, .. } => has_prefix(
                    r@,
                    "config file not found at "@ + path@ + ": "@,
                ),
                ConfigError::ParseError(_) => has_prefix(r@, "failed to parse config.toml: "@),
                ConfigError::MissingApiKey => r@
                    == "OpenAI provider requires OPENAI_API_KEY environment variable"@,
                ConfigError::InvalidLogLevel { value } => r@ == "invalid logging level '"@
                    + value@ + log_level_message_tail(),
            },
    {
        match self {
            ConfigError::NotFound { path, source } => {
                let mut m = String::from_str("config file not found at ");
                m.append(path.as_str());
                m.append(": ");
                let ghost head = m@;
                let t = io_error_text(source);
                m.append(t.as_str());
                assert(m@.subrange(0, head.len() as int) =~= head);
                m
            },
            ConfigError::ParseError(e) => {
                let mut m = String::from_str("failed to parse config.toml: ");
                let ghost head = m@;
                let t = toml_error_text(e);
                m.append(t.as_str());
                assert(m@.subrange(0, head.len() as int) =~= head);
                m
            },
            ConfigError::MissingApiKey => String::from_str(
                "OpenAI provider requires OPENAI_API_KEY environment variable",
            ),
            ConfigError::InvalidLogLevel { value } => {
                let mut m = String::from_str("invalid logging level '");
                m.append(value.as_str());
                m.append("'; valid values are: error, warn, info, debug, trace");
                m
            },
        }
    }
}

/// Which language-model service answers the analysis requests.
#[derive(Clone, Debug, PartialEq, Eq, Structural)]
pub enum LlmProvider {
    Ollama,
    OpenAi,
}

impl Default for LlmProvider {
    fn default() -> (r: Self)
        ensures
            r == LlmProvider::Ollama,
    {
        LlmProvider::Ollama
    }
}

/// Default endpoint of the language-model service.
pub fn default_endpoint() -> (r: String)
    ensures
        r@ == "http://localhost:11434/api/generate"@,
{
    String::from_str("http://localhost:11434/api/generate")
}

/// Default model name.
pub fn default_model() -> (r: String)
    ensures
        r@ == "llama3"@,
{
    String::from_str("llama3")
}

/// Default number of posts per request.
pub fn default_batch_size() -> (r: usize)
    ensures
        r == 10,
{
    10
}

/// Default token limit of a reply.
pub fn default_max_tokens() -> (r: u32)
    ensures
        r == 2048,
{
    2048
}

/// Default sampling temperature, 0.3 in binary32 (bit pattern 0x3E99999A).
pub fn default_temperature() -> (r: Binary32)
    ensures
        r.bits == 0x3E99_999A,
{
    Binary32 { bits: 0x3E99_999A }
}

/// By default posts that already have an analysis are skipped.
pub fn default_skip_existing() -> (r: bool)
    ensures
        r,
{
    true
}

/// Default minimum of title length plus link length, in characters.
pub fn default_min_content_length() -> (r: usize)
    ensures
        r == 20,
{
    20
}

/// Default cap on posts per run; 0 means no cap.
pub fn default_max_items() -> (r: usize)
    ensures
        r == 0,
{
    0
}

/// Default export directory.
pub fn default_output_dir() -> (r: String)
    ensures
        r@ == "output"@,
{
    String::from_str("output")
}

/// Default database path.
pub fn default_db_path() -> (r: String)
    ensures
        r@ == "data/ai-saved-manager.db"@,
{
    String::from_str("data/ai-saved-manager.db")
}

/// Default log level.
pub fn default_log_level() -> (r: String)
    ensures
        r@ == "info"@,
{
    String::from_str("info")
}

/// Request sizing and sampling settings.
#[derive(Clone, Debug)]
pub struct BatchConfig {
    pub size: usize,
    pub max_tokens: u32,
    pub temperature: Binary32,
}

impl Default for BatchConfig {
    fn default() -> (r: Self)
        ensures
            r.size == 10,
            r.max_tokens == 2048,
            r.temperature.bits == 0x3E99_999A,
    {
        BatchConfig {
            size: default_batch_size(),
            max_tokens: default_max_tokens(),
            temperature: default_temperature(),
        }
    }
}

/// Language-model settings.
#[derive(Clone, Debug)]
pub struct LlmConfig {
    pub provider: LlmProvider,
    pub endpoint: String,
    pub model: String,
    pub batch: BatchConfig,
}

impl Default for LlmConfig {
    fn default() -> (r: Self)
        ensures
            r.provider == LlmProvider::Ollama,
            r.endpoint@ == "http://localhost:11434/api/generate"@,
            r.model@ == "llama3"@,
            r.batch.size == 10,
            r.batch.max_tokens == 2048,
            r.batch.temperature.bits == 0x3E99_999A,
    {
        LlmConfig {
            provider: LlmProvider::default(),
            endpoint: default_endpoint(),
            model: default_model(),
            batch: BatchConfig::default(),
        }
    }
}

/// Settings of a processing run.
#[derive(Clone, Debug)]
pub struct ProcessingConfig {
    pub skip_existing: bool,
    pub min_content_length: usize,
    pub max_items: usize,
}

impl Default for ProcessingConfig {
    fn default() -> (r: Self)
        ensures
            r.skip_existing,
            r.min_content_length == 20,
            r.max_items == 0,
    {
        ProcessingConfig {
            skip_existing: default_skip_existing(),
            min_content_length: default_min_content_length(),
            max_items: default_max_items(),
        }
    }
}

/// Where exports go by default.
#[derive(Clone, Debug)]
pub struct OutputConfig {
    pub dir: String,
}

impl Default for OutputConfig {
    fn default() -> (r: Self)
        ensures
            r.dir@ == "output"@,
    {
        OutputConfig { dir: default_output_dir() }
    }
}

/// Where the database lives.
#[derive(Clone, Debug)]
pub struct StorageConfig {
    pub path: String,
}

impl Default for StorageConfig {
    fn default() -> (r: Self)
        ensures
            r.path@ == "data/ai-saved-manager.db"@,
    {
        StorageConfig { path: default_db_path() }
    }
}

/// Logging settings.
#[derive(Clone, Debug)]
pub struct LoggingConfig {
    pub level: String,
}

impl Default for LoggingConfig {
    fn default() -> (r: Self)
        ensures
            r.level@ == "info"@,
    {
        LoggingConfig { level: default_log_level() }
    }
}

/// The whole configuration.
#[derive(Clone, Debug)]
pub struct AppConfig {
    pub llm: LlmConfig,
    pub processing: ProcessingConfig,
    pub output: OutputConfig,
    pub storage: StorageConfig,
    pub logging: LoggingConfig,
}

impl Default for AppConfig {
    fn default() -> (r: Self)
        ensures
            r.llm.provider == LlmProvider::Ollama,
            r.llm.endpoint@ == "http://localhost:11434/api/generate"@,
            r.llm.model@ == "llama3"@,
            r.llm.batch.size == 10,
            r.llm.batch.max_tokens == 2048,
            r.llm.batch.temperature.bits == 0x3E99_999A,
            r.processing.skip_existing,
            r.processing.min_content_length == 20,
            r.processing.max_items == 0,
            r.output.dir@ == "output"@,
            r.storage.path@ == "data/ai-saved-manager.db"@,
            r.logging.level@ == "info"@,
    {
        AppConfig {
            llm: LlmConfig::default(),
            processing: ProcessingConfig::default(),
            output: OutputConfig::default(),
            storage: StorageConfig::default(),
            logging: LoggingConfig::default(),
        }
    }
}

/// The accepted log levels.
pub open spec fn is_valid_log_level(t: Seq<char>) -> bool {
    ||| t == "error"@
    ||| t == "warn"@
    ||| t == "info"@
    ||| t == "debug"@
    ||| t == "trace"@
}

/// An endpoint on this machine, which needs no API key.
pub open spec fn is_local_endpoint(endpoint: Seq<char>) -> bool {
    contains(endpoint, "localhost"@) || contains(endpoint, "127.0.0.1"@)
}

/// A configuration that uses the real OpenAI service without a key.
pub open spec fn lacks_needed_key(c: AppConfig, openai_key_set: bool) -> bool {
    c.llm.provider == LlmProvider::OpenAi && !is_local_endpoint(c.llm.endpoint@) && !openai_key_set
}

/// Only the OpenAI provider ever needs a key: an Ollama configuration never
/// lacks one, whatever its endpoint; an OpenAI configuration lacks one
/// exactly when no key is set and its endpoint names neither "localhost"
/// nor "127.0.0.1".
pub proof fn lemma_key_needed_only_for_openai(c: AppConfig, openai_key_set: bool)
    ensures
        c.llm.provider == LlmProvider::Ollama ==> !lacks_needed_key(c, openai_key_set),
        lacks_needed_key(c, openai_key_set) ==> c.llm.provider == LlmProvider::OpenAi,
        c.llm.provider == LlmProvider::OpenAi ==> (lacks_needed_key(c, openai_key_set) <==> (
        !openai_key_set && !contains(c.llm.endpoint@, "localhost"@) && !contains(
            c.llm.endpoint@,
            "127.0.0.1"@,
        ))),
{
}

/// Whether `t` is one of the accepted log levels.
pub fn valid_log_level(t: &str) -> (r: bool)
    ensures
        r == is_valid_log_level(t@),
{
    same_str(t, "error") || same_str(t, "warn") || same_str(t, "info") || same_str(t, "debug")
        || same_str(t, "trace")
}

impl AppConfig {
    /// Check a parsed configuration: the log level must be one of the five
    /// accepted values, and the real OpenAI service needs a key
    /// (`openai_key_set` says whether `OPENAI_API_KEY` is set).  The level
    /// is checked first.
    pub fn validated(self, openai_key_set: bool) -> (r: Result<AppConfig, ConfigError>)
        ensures
            !is_valid_log_level(self.logging.level@) ==> (r matches Err(
                ConfigError::InvalidLogLevel { value },
            ) && value@ == self.logging.level@),
            is_valid_log_level(self.logging.level@) && lacks_needed_key(self, openai_key_set) ==> (
            r matches Err(ConfigError::MissingApiKey)),
            is_valid_log_level(self.logging.level@) && !lacks_needed_key(self, openai_key_set)
                ==> r == Ok::<AppConfig, ConfigError>(self),
    {
        if !valid_log_level(self.logging.level.as_str()) {
            let value = self.logging.level.clone();
            return Err(ConfigError::InvalidLogLevel { value });
        }
        let openai = match self.llm.provider {
            LlmProvider::OpenAi => true,
            LlmProvider::Ollama => false,
        };
        if openai && !contains_str(self.llm.endpoint.as_str(), "localhost") && !contains_str(
            self.llm.endpoint.as_str(),
            "127.0.0.1",
        ) && !openai_key_set {
            return Err(ConfigError::MissingApiKey);
        }
        Ok(self)
    }
}

} // verus!
