//! Command-line vocabulary: the commands, the log levels, and the decisions
//! that the command handlers make on their plain inputs.

use vstd::prelude::*;
use crate::config::{is_valid_log_level, valid_log_level};
use crate::text::{contains, contains_str, same_str};
use vstd::string::StringExecFns;

verus! {

/// `tracing::Level`, the verbosity that the log subscriber is set to.
#[verifier::external_type_specification]
#[verifier::external_body]
pub struct ExTracingLevel(tracing::Level);

/// `std::path::PathBuf`, a file path named on the command line.
#[verifier::external_type_specification]
#[verifier::external_body]
pub struct ExPathBuf(std::path::PathBuf);

/// The level that `tracing::Level`'s `FromStr` reads from `name`, or
/// `None` when it reads none.
pub uninterp spec fn tracing_level_parsed(name: Seq<char>) -> Option<tracing::Level>;

/// `str::parse::<tracing::Level>()`, the parse error dropped.  The contract
/// names the result, and states what the source of `FromStr for Level`
/// shows: each of the five lowercase level names parses.
#[verifier::external_body]
fn parse_tracing_level(name: &str) -> (r: Option<tracing::Level>)
    ensures
        r == tracing_level_parsed(name@),
        is_valid_log_level(name@) ==> r is Some,
{
    name.parse::<tracing::Level>().ok()
}

/// The level name that a configured level selects: the name itself when it
/// is one of the five accepted names, "info" otherwise.
pub open spec fn selected_level_name(t: Seq<char>) -> Seq<char> {
    if is_valid_log_level(t) {
        t
    } else {
        "info"@
    }
}

/// Convert a validated log-level string to a `tracing::Level`: the level
/// of that name; an unknown string falls back to `INFO`.
pub fn parse_log_level(level: &str) -> (r: tracing::Level)
    ensures
        tracing_level_parsed(selected_level_name(level@)) == Some(r),
{
    proof {
        reveal_strlit("info");
    }
    let name: &str = if valid_log_level(level) {
        level
    } else {
        "info"
    };
    parse_tracing_level(name).unwrap()
}

/// The command line: one subcommand.
pub struct Cli {
    pub command: Commands,
}

/// The subcommands.
pub enum Commands {
    /// Import a raw export file into a dataset
    Import { source: String, dataset: String, file: std::path::PathBuf },
    /// Run language-model analysis on unprocessed posts
    Process { dataset: String },
    /// Export a processed dataset to a file ("json" or "sqlite")
    Export { dataset: String, format: String, output: std::path::PathBuf },
    /// List all datasets
    Datasets,
    /// Show statistics for a dataset
    Stats { dataset: String },
}

/// Where imported records come from.
#[derive(Clone, Copy, Debug, PartialEq, Eq, Structural)]
pub enum ImportSource {
    Facebook,
}

/// The file formats of an export.
#[derive(Clone, Copy, Debug, PartialEq, Eq, Structural)]
pub enum ExportFormat {
    Json,
    Sqlite,
}

/// Resolve `--source`: only "facebook" is known; any other value is refused
/// with a message that names it.
pub fn import_source(source: &str) -> (r: Result<ImportSource, String>)
    ensures
        source@ == "facebook"@ ==> r == Ok::<ImportSource, String>(ImportSource::Facebook),
        source@ != "facebook"@ ==> (r matches Err(m) && m@ == "unknown import source '"@
            + source@ + "'; supported: facebook"@),
{
    if same_str(source, "facebook") {
        Ok(ImportSource::Facebook)
    } else {
        let mut m = String::from_str("unknown import source '");
        m.append(source);
        m.append("'; supported: facebook");
        Err(m)
    }
}

/// Resolve `--format`: "json" or "sqlite"; any other value is refused with
/// a message that names it.
pub fn export_format(format: &str) -> (r: Result<ExportFormat, String>)
    ensures
        format@ == "json"@ ==> r == Ok::<ExportFormat, String>(ExportFormat::Json),
        format@ == "sqlite"@ ==> r == Ok::<ExportFormat, String>(ExportFormat::Sqlite),
        format@ != "json"@ && format@ != "sqlite"@ ==> (r matches Err(m) && m@
            == "unknown export format '"@ + format@ + "'; supported: json, sqlite"@),
{
    proof {
        reveal_strlit("json");
        reveal_strlit("sqlite");
        assert("json"@.len() != "sqlite"@.len());
    }
    if same_str(format, "json") {
        Ok(ExportFormat::Json)
    } else if same_str(format, "sqlite") {
        Ok(ExportFormat::Sqlite)
    } else {
        let mut m = String::from_str("unknown export format '");
        m.append(format);
        m.append("'; supported: json, sqlite");
        Err(m)
    }
}

/// The base URL handed to the OpenAI client: none for the real service (an
/// endpoint that mentions "openai.com"), the configured endpoint otherwise.
pub fn openai_base_url(endpoint: &str) -> (r: Option<String>)
    ensures
        contains(endpoint@, "openai.com"@) ==> r is None,
        !contains(endpoint@, "openai.com"@) ==> (r matches Some(u) && u@ == endpoint@),
{
    if contains_str(endpoint, "openai.com") {
        None
    } else {
        Some(String::from_str(endpoint))
    }
}

/// What kind of error ended a command, as far as the exit code cares.
#[derive(Clone, Copy, Debug, PartialEq, Eq, Structural)]
pub enum ErrorOrigin {
    /// A configuration error of any kind.
    Config,
    /// The storage layer reported that a dataset does not exist.
    DatasetNotFound,
    /// Anything else.
    Other,
}

/// A message that marks a user error.
pub open spec fn is_user_error_message(m: Seq<char>) -> bool {
    ||| contains(m, "not found"@)
    ||| contains(m, "unknown import source"@)
    ||| contains(m, "unknown export format"@)
}

/// Map an error to an exit code: 1 for user errors (any configuration
/// error, a missing dataset, or a message that says "not found", "unknown
/// import source" or "unknown export format"), 2 for anything else.
pub fn classify_error(origin: ErrorOrigin, message: &str) -> (code: i32)
    ensures
        code == (if origin == ErrorOrigin::Config || origin == ErrorOrigin::DatasetNotFound
            || is_user_error_message(message@) {
            1i32
        } else {
            2i32
        }),
{
    match origin {
        ErrorOrigin::Config => {
            return 1;
        },
        ErrorOrigin::DatasetNotFound => {
            return 1;
        },
        ErrorOrigin::Other => {},
    }
    if contains_str(message, "not found") || contains_str(message, "unknown import source")
        || contains_str(message, "unknown export format") {
        1
    } else {
        2
    }
}

} // verus!
