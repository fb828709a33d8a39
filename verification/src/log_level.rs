//! Resolving the logging verbosity from the `--log_level` flag.

use crate::parameter_finder::{is_first_occurrence, value_for};
use crate::parameter_finder::{lemma_first_occurrence_absent, lemma_first_occurrence_at};
use flexi_logger::LevelFilter;
use std::str::FromStr;
use vstd::prelude::*;
use vstd::string::*;

verus! {

/// How much the process logs.
#[derive(Clone, Copy, Debug, PartialEq, Eq, Structural)]
pub enum LogLevel {
    Trace,
    Debug,
    Info,
    Warn,
    Error,
    Off,
}

/// Why the verbosity could not be resolved.
#[derive(Debug, PartialEq, Eq)]
pub enum LogLevelError {
    /// The flag is the last token.
    MissingValue,
    /// The token after the flag names no level; it is carried along.
    InvalidValue(String),
}

/// The model of a `LogLevelError`.
pub enum LogLevelErrorView {
    MissingValue,
    InvalidValue(Seq<char>),
}

impl View for LogLevelError {
    type V = LogLevelErrorView;

    open spec fn view(&self) -> LogLevelErrorView {
        match self {
            LogLevelError::MissingValue => LogLevelErrorView::MissingValue,
            LogLevelError::InvalidValue(value) => LogLevelErrorView::InvalidValue(value@),
        }
    }
}

/// The flag that announces the verbosity.
pub open spec fn log_level_tag() -> Seq<char> {
    "--log_level"@
}

/// The text that tells the user which values the flag takes.
pub open spec fn log_level_usage() -> Seq<char> {
    "should be one of <trace|debug|info|warn|error|off> (default = warn)"@
}

/// The name of a level in capital letters.
pub open spec fn level_name_upper(level: LogLevel) -> Seq<char> {
    match level {
        LogLevel::Trace => seq!['T', 'R', 'A', 'C', 'E'],
        LogLevel::Debug => seq!['D', 'E', 'B', 'U', 'G'],
        LogLevel::Info => seq!['I', 'N', 'F', 'O'],
        LogLevel::Warn => seq!['W', 'A', 'R', 'N'],
        LogLevel::Error => seq!['E', 'R', 'R', 'O', 'R'],
        LogLevel::Off => seq!['O', 'F', 'F'],
    }
}

/// The name of a level in small letters.
pub open spec fn level_name_lower(level: LogLevel) -> Seq<char> {
    match level {
        LogLevel::Trace => seq!['t', 'r', 'a', 'c', 'e'],
        LogLevel::Debug => seq!['d', 'e', 'b', 'u', 'g'],
        LogLevel::Info => seq!['i', 'n', 'f', 'o'],
        LogLevel::Warn => seq!['w', 'a', 'r', 'n'],
        LogLevel::Error => seq!['e', 'r', 'r', 'o', 'r'],
        LogLevel::Off => seq!['o', 'f', 'f'],
    }
}

/// `value` spells the name of `level`, each letter in either case.
pub open spec fn names_level(value: Seq<char>, level: LogLevel) -> bool {
    &&& value.len() == level_name_upper(level).len()
    &&& forall|i: int|
        0 <= i < value.len() ==> value[i] == level_name_upper(level)[i] || value[i]
            == level_name_lower(level)[i]
}

/// The level that `value` names, if it names one.
pub open spec fn parse_level(value: Seq<char>) -> Option<LogLevel> {
    if names_level(value, LogLevel::Off) {
        Some(LogLevel::Off)
    } else if names_level(value, LogLevel::Error) {
        Some(LogLevel::Error)
    } else if names_level(value, LogLevel::Warn) {
        Some(LogLevel::Warn)
    } else if names_level(value, LogLevel::Info) {
        Some(LogLevel::Info)
    } else if names_level(value, LogLevel::Debug) {
        Some(LogLevel::Debug)
    } else if names_level(value, LogLevel::Trace) {
        Some(LogLevel::Trace)
    } else {
        None
    }
}

/// What the token after the flag resolves to.
pub open spec fn level_of(value: Seq<char>) -> Result<LogLevel, LogLevelErrorView> {
    match parse_level(value) {
        Some(level) => Ok(level),
        None => Err(LogLevelErrorView::InvalidValue(value)),
    }
}

/// What an argument list resolves to: `Warn` without the flag, the level
/// named after its first occurrence, or the reason why there is none.
pub open spec fn resolve_log_level(tokens: Seq<Seq<char>>) -> Result<LogLevel, LogLevelErrorView> {
    match value_for(tokens, log_level_tag()) {
        Ok(None) => Ok(LogLevel::Warn),
        Ok(Some(value)) => level_of(value),
        Err(_) => Err(LogLevelErrorView::MissingValue),
    }
}

/// The model of a resolution: the error by its view.
pub open spec fn resolution_view(result: Result<LogLevel, LogLevelError>) -> Result<
    LogLevel,
    LogLevelErrorView,
> {
    match result {
        Ok(level) => Ok(level),
        Err(e) => Err(e@),
    }
}

/// The text shown to the user for an error.
pub open spec fn error_message(error: LogLevelErrorView) -> Seq<char> {
    match error {
        LogLevelErrorView::MissingValue => "Missing value for "@ + log_level_tag() + ": "@
            + log_level_usage(),
        LogLevelErrorView::InvalidValue(value) => "Bad value '"@ + value + "' for "@
            + log_level_tag() + ": "@ + log_level_usage(),
    }
}

/// Calls `flexi_logger::LevelFilter::from_str`, which compares its argument
/// with the six level names, ignoring the case of ASCII letters, and fails
/// when none matches. The contract is taken on trust and claims exactly
/// that: the result is the level whose name `value` spells, each letter in
/// either case, or nothing where it spells none.
#[verifier::external_body]
fn parse_level_filter(value: &str) -> (result: Option<LogLevel>)
    ensures
        result == parse_level(value@),
{
    match LevelFilter::from_str(value) {
        Ok(LevelFilter::Off) => Some(LogLevel::Off),
        Ok(LevelFilter::Error) => Some(LogLevel::Error),
        Ok(LevelFilter::Warn) => Some(LogLevel::Warn),
        Ok(LevelFilter::Info) => Some(LogLevel::Info),
        Ok(LevelFilter::Debug) => Some(LogLevel::Debug),
        Ok(LevelFilter::Trace) => Some(LogLevel::Trace),
        Err(_) => None,
    }
}

impl LogLevelError {
    /// The text that describes this error to the user.
    pub fn message(&self) -> (text: String)
        ensures
            text@ == error_message(self@),
    {
        match self {
            LogLevelError::MissingValue => "Missing value for ".to_owned().concat(
                "--log_level",
            ).concat(": ").concat(
                "should be one of <trace|debug|info|warn|error|off> (default = warn)",
            ),
            LogLevelError::InvalidValue(value) => "Bad value '".to_owned().concat(
                value.as_str(),
            ).concat("' for ").concat("--log_level").concat(": ").concat(
                "should be one of <trace|debug|info|warn|error|off> (default = warn)",
            ),
        }
    }
}

/// Turns the token found after the flag into a level, or into the error that
/// carries the token.
pub fn level_from_value(value: String) -> (result: Result<LogLevel, LogLevelError>)
    ensures
        resolution_view(result) == level_of(value@),
{
    match parse_level_filter(value.as_str()) {
        Some(level) => Ok(level),
        None => Err(LogLevelError::InvalidValue(value)),
    }
}

/// A value spells the name of at most one level.
pub proof fn lemma_level_names_are_exclusive(value: Seq<char>, a: LogLevel, b: LogLevel)
    requires
        names_level(value, a),
        names_level(value, b),
    ensures
        a == b,
{
    assert(value.len() >= 3);
    assert(value[0] == level_name_upper(a)[0] || value[0] == level_name_lower(a)[0]);
    assert(value[0] == level_name_upper(b)[0] || value[0] == level_name_lower(b)[0]);
    assert(value[1] == level_name_upper(a)[1] || value[1] == level_name_lower(a)[1]);
    assert(value[1] == level_name_upper(b)[1] || value[1] == level_name_lower(b)[1]);
}

/// Every spelling of a level's name, in any mix of cases, parses to that level.
pub proof fn lemma_name_parses_to_its_level(value: Seq<char>, level: LogLevel)
    requires
        names_level(value, level),
    ensures
        parse_level(value) == Some(level),
{
    let found = parse_level(value);
    assert(found.is_some());
    lemma_level_names_are_exclusive(value, level, found.unwrap());
}

/// Where the token after the first `--log_level` spells a level's name in any
/// mix of cases, the argument list resolves to that level.
pub proof fn lemma_named_level_is_resolved(tokens: Seq<Seq<char>>, i: int, level: LogLevel)
    requires
        is_first_occurrence(tokens, log_level_tag(), i),
        i + 1 < tokens.len(),
        names_level(tokens[i + 1], level),
    ensures
        resolve_log_level(tokens) == Ok::<LogLevel, LogLevelErrorView>(level),
{
    lemma_first_occurrence_at(tokens, log_level_tag(), i);
    lemma_name_parses_to_its_level(tokens[i + 1], level);
}

/// An argument list without the flag resolves to `Warn`.
pub proof fn lemma_absent_flag_resolves_to_warn(tokens: Seq<Seq<char>>)
    requires
        forall|j: int| 0 <= j < tokens.len() ==> tokens[j] != log_level_tag(),
    ensures
        resolve_log_level(tokens) == Ok::<LogLevel, LogLevelErrorView>(LogLevel::Warn),
{
    lemma_first_occurrence_absent(tokens, log_level_tag());
}

/// An argument list whose only `--log_level` is its last token fails with
/// `MissingValue`, and the message is the fixed usage text.
pub proof fn lemma_flag_without_value_is_missing(tokens: Seq<Seq<char>>)
    requires
        is_first_occurrence(tokens, log_level_tag(), tokens.len() - 1),
    ensures
        resolve_log_level(tokens) == Err::<LogLevel, LogLevelErrorView>(
            LogLevelErrorView::MissingValue,
        ),
        error_message(LogLevelErrorView::MissingValue) == "Missing value for "@ + "--log_level"@
            + ": "@ + "should be one of <trace|debug|info|warn|error|off> (default = warn)"@,
{
    lemma_first_occurrence_at(tokens, log_level_tag(), tokens.len() - 1);
}

/// Where the token after the first `--log_level` spells no level's name, the
/// argument list fails with `InvalidValue`, which carries that token, and
/// the message quotes it before the fixed usage text.
pub proof fn lemma_unknown_value_is_invalid(tokens: Seq<Seq<char>>, i: int)
    requires
        is_first_occurrence(tokens, log_level_tag(), i),
        i + 1 < tokens.len(),
        ({
            let value = tokens[i + 1];
            forall|level: LogLevel| !#[trigger] names_level(value, level)
        }),
    ensures
        resolve_log_level(tokens) == Err::<LogLevel, LogLevelErrorView>(
            LogLevelErrorView::InvalidValue(tokens[i + 1]),
        ),
        error_message(LogLevelErrorView::InvalidValue(tokens[i + 1])) == "Bad value '"@
            + tokens[i + 1] + "' for "@ + "--log_level"@ + ": "@
            + "should be one of <trace|debug|info|warn|error|off> (default = warn)"@,
{
    lemma_first_occurrence_at(tokens, log_level_tag(), i);
}

} // verus!
