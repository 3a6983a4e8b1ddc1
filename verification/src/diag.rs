//! Per-file parse failures and their diagnostic messages.
//!
//! A file that does not parse is a failed file, reported with a distinct,
//! specific message, and processing continues with the next file; it never
//! aborts the run. The parser itself is an outside collaborator: the caller
//! maps its error onto [`ParseFailure`] and prints what this module builds.

use vstd::prelude::*;

verus! {

/// Why a source file failed to parse.
pub enum ParseFailure {
    /// Malformed source; reported through its location rather than a message.
    SyntaxError { path: String, offset: usize },
    /// An `include` named a file that could not be read.
    IncludeNotFound { path: String },
    /// A macro was applied to an argument it does not declare.
    DefineArgNotFound { name: String },
    /// An undefined macro was used.
    DefineNotFound { name: String },
    /// Any other parser error, carried as the text the parser rendered.
    Other { message: String },
}

/// The message reported for a parse failure, when it is reported as a
/// message: a syntax error is instead reported through its path and offset.
pub fn parse_error_message(e: &ParseFailure) -> (r: Option<String>)
    ensures
        match e {
            ParseFailure::SyntaxError { .. } => r is None,
            ParseFailure::IncludeNotFound { path } => match r {
                Some(m) => m@ == "failed to include '"@ + path@ + "'"@,
                None => false,
            },
            ParseFailure::DefineArgNotFound { name } => match r {
                Some(m) => m@ == "define argument '"@ + name@ + "' is not found"@,
                None => false,
            },
            ParseFailure::DefineNotFound { name } => match r {
                Some(m) => m@ == "define '"@ + name@ + "' is not found"@,
                None => false,
            },
            ParseFailure::Other { message } => match r {
                Some(m) => m@ == message@,
                None => false,
            },
        },
{
    match e {
        ParseFailure::SyntaxError { .. } => None,
        ParseFailure::IncludeNotFound { path } => {
            let mut m = "failed to include '".to_owned();
            m.append(path.as_str());
            m.append("'");
            Some(m)
        },
        ParseFailure::DefineArgNotFound { name } => {
            let mut m = "define argument '".to_owned();
            m.append(name.as_str());
            m.append("' is not found");
            Some(m)
        },
        ParseFailure::DefineNotFound { name } => {
            let mut m = "define '".to_owned();
            m.append(name.as_str());
            m.append("' is not found");
            Some(m)
        },
        ParseFailure::Other { message } => Some(message.clone()),
    }
}

} // verus!
