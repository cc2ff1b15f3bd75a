//! Log records as calls to the logger of the editor.

use vstd::prelude::*;
use vstd::std_specs::convert::FromSpecImpl;
use vstd::string::StringExecFns;

verus! {

/// How grave a log record is. `Level` holds a name as it was found in a
/// record; the others are the five levels of the `log` crate.
#[derive(Debug, PartialEq, Eq)]
pub enum LogLevel {
    Level(String),
    Error,
    Warn,
    Info,
    Debug,
    Trace,
}

/// A letter of `A` to `Z` as its small letter, any other character as it is.
pub open spec fn ascii_lower(c: char) -> char {
    if 'A' <= c <= 'Z' {
        ((c as u8) + 32) as u8 as char
    } else {
        c
    }
}

/// Whether `a` and `b` are the same but for the case of the letters `a` to
/// `z`.
pub open spec fn same_ignoring_ascii_case(a: Seq<char>, b: Seq<char>) -> bool {
    &&& a.len() == b.len()
    &&& forall|i: int| 0 <= i < a.len() ==> ascii_lower(#[trigger] a[i]) == ascii_lower(b[i])
}

/// The level that `name` is a name of, in capital or small letters, where it
/// is one.
pub open spec fn level_named(name: Seq<char>) -> Option<LogLevel> {
    if same_ignoring_ascii_case(name, "ERROR"@) {
        Some(LogLevel::Error)
    } else if same_ignoring_ascii_case(name, "WARN"@) {
        Some(LogLevel::Warn)
    } else if same_ignoring_ascii_case(name, "INFO"@) {
        Some(LogLevel::Info)
    } else if same_ignoring_ascii_case(name, "DEBUG"@) {
        Some(LogLevel::Debug)
    } else if same_ignoring_ascii_case(name, "TRACE"@) {
        Some(LogLevel::Trace)
    } else {
        None
    }
}

/// What `str::to_lowercase` makes of `text`.
pub uninterp spec fn lowercase_of(text: Seq<char>) -> Seq<char>;

/// Calls `log::Level::from_str`.
///
/// Trusted: the level is the one of `ERROR`, `WARN`, `INFO`, `DEBUG` and
/// `TRACE` that `name` matches when the case of ASCII letters is ignored, and
/// there is none where it matches none of them; `OFF` is no level. The
/// variants of `log::Level` are handed on under the same names.
#[verifier::external_body]
fn parse_level(name: &str) -> (level: Option<LogLevel>)
    ensures
        level == level_named(name@),
{
    match <log::Level as std::str::FromStr>::from_str(name) {
        Ok(log::Level::Error) => Some(LogLevel::Error),
        Ok(log::Level::Warn) => Some(LogLevel::Warn),
        Ok(log::Level::Info) => Some(LogLevel::Info),
        Ok(log::Level::Debug) => Some(LogLevel::Debug),
        Ok(log::Level::Trace) => Some(LogLevel::Trace),
        Err(_) => None,
    }
}

/// Calls `str::to_lowercase`.
///
/// Trusted: the result is a function of the text alone, which `lowercase_of`
/// names. Nothing is claimed of what it holds.
#[verifier::external_body]
fn lowercase(text: &str) -> (lower: String)
    ensures
        lower@ == lowercase_of(text@),
{
    text.to_lowercase()
}

/// The level of a name: the one it names, and `Info` where it names none.
pub open spec fn level_of(name: Seq<char>) -> LogLevel {
    match level_named(name) {
        Some(level) => level,
        None => LogLevel::Info,
    }
}

/// What a level is called where it is written: the five levels by their
/// names in small letters, a name that was found by its lowercase.
pub open spec fn name_of(level: LogLevel) -> Seq<char> {
    match level {
        LogLevel::Level(name) => lowercase_of(name@),
        LogLevel::Error => "error"@,
        LogLevel::Warn => "warn"@,
        LogLevel::Info => "info"@,
        LogLevel::Debug => "debug"@,
        LogLevel::Trace => "trace"@,
    }
}

impl From<String> for LogLevel {
    /// The level that `name` names, and `Info` where it names none.
    fn from(name: String) -> (level: LogLevel) {
        match parse_level(name.as_str()) {
            Some(level) => level,
            None => LogLevel::Info,
        }
    }
}

impl FromSpecImpl<String> for LogLevel {
    open spec fn obeys_from_spec() -> bool {
        true
    }

    open spec fn from_spec(name: String) -> LogLevel {
        level_of(name@)
    }
}

impl LogLevel {
    /// What the level is called where it is written.
    pub fn name(&self) -> (name: String)
        ensures
            name@ == name_of(*self),
    {
        match self {
            LogLevel::Level(found) => lowercase(found.as_str()),
            LogLevel::Error => "error".to_owned(),
            LogLevel::Warn => "warn".to_owned(),
            LogLevel::Info => "info".to_owned(),
            LogLevel::Debug => "debug".to_owned(),
            LogLevel::Trace => "trace".to_owned(),
        }
    }
}

/// What is handed to the editor for one log record: the name of the function
/// of its logger to call, and the line to call it with.
#[derive(Debug, PartialEq, Eq)]
pub struct LogCall {
    pub method: String,
    pub line: String,
}

/// The characters of a text that may be missing: none where it is.
pub open spec fn text_or_empty(text: Option<String>) -> Seq<char> {
    match text {
        Some(t) => t@,
        None => Seq::empty(),
    }
}

/// The name of the function to call for a record of the level `level`: the
/// lowercase of the level, and of `info` where the record names none.
pub open spec fn method_of(level: Option<String>) -> Seq<char> {
    match level {
        Some(l) => lowercase_of(l@),
        None => lowercase_of("info"@),
    }
}

/// The line of a record: its target in square brackets, a space, and its
/// message.
pub open spec fn line_of(target: Option<String>, message: Option<String>) -> Seq<char> {
    "["@ + text_or_empty(target) + "] "@ + text_or_empty(message)
}

/// Makes the call for one log record from its `level`, `message` and
/// `target`, each as the record has it.
pub fn log_call(level: Option<String>, message: Option<String>, target: Option<String>) -> (call:
    LogCall)
    ensures
        call.method@ == method_of(level),
        call.line@ == line_of(target, message),
{
    let found = match level {
        Some(l) => l,
        None => "info".to_owned(),
    };
    let method = LogLevel::Level(found).name();
    let mut line = "[".to_owned();
    if let Some(t) = &target {
        line.append(t.as_str());
    }
    line.append("] ");
    if let Some(m) = &message {
        line.append(m.as_str());
    }
    proof {
        assert(line@ =~= line_of(target, message));
    }
    LogCall { method, line }
}

} // verus!
