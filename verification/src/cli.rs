//! What the command line decides before and between queries: how much to
//! log, where the statements come from, and how a file of SQL is split into
//! statements.

use crate::error::{Error, ErrorView};
use vstd::prelude::*;
use vstd::string::*;

verus! {

/// The level of detail of the log for a number of `-v` flags.
pub open spec fn level_for(verbose: u64) -> Seq<char> {
    if verbose == 0 {
        "info"@
    } else if verbose == 1 {
        "debug"@
    } else {
        "trace"@
    }
}

/// The level of detail of the log for a number of `-v` flags.
pub fn log_level(verbose: u64) -> (level: &'static str)
    ensures
        level@ == level_for(verbose),
{
    if verbose == 0 {
        "info"
    } else if verbose == 1 {
        "debug"
    } else {
        "trace"
    }
}

/// The filter directive that is used when the environment sets none: this
/// program logs at the level that the flags ask for.
pub fn default_directive(verbose: u64) -> (directive: String)
    ensures
        directive@ == "athenacli="@ + level_for(verbose),
{
    "athenacli=".to_owned().concat(log_level(verbose))
}

/// Where the statements to run come from.
#[derive(Debug, Clone, PartialEq, Eq)]
pub enum Input<P> {
    /// The statements given on the command line, in order.
    Commands(Vec<String>),
    /// A file of statements.
    File(P),
}

/// A command line that names no source of statements, or two.
#[derive(Debug, Clone, Copy, PartialEq, Eq)]
pub enum UsageError {
    BothCommandAndFile,
    NeitherCommandNorFile,
}

impl UsageError {
    /// The complaint in words.
    pub open spec fn wording(self) -> Seq<char> {
        match self {
            UsageError::BothCommandAndFile => "cannot specify both --command and --file!"@,
            UsageError::NeitherCommandNorFile => "must specify either --command or --file!"@,
        }
    }

    /// The complaint in words.
    pub fn message(&self) -> (text: &'static str)
        ensures
            text@ == self.wording(),
    {
        match self {
            UsageError::BothCommandAndFile => "cannot specify both --command and --file!",
            UsageError::NeitherCommandNorFile => "must specify either --command or --file!",
        }
    }
}

/// Settles where the statements come from: exactly one of the two sources
/// must be given.
pub fn choose_input<P>(command: Option<Vec<String>>, file: Option<P>) -> (chosen: Result<
    Input<P>,
    UsageError,
>)
    ensures
        chosen == match (command, file) {
            (Some(_), Some(_)) => Err::<Input<P>, UsageError>(UsageError::BothCommandAndFile),
            (None, None) => Err(UsageError::NeitherCommandNorFile),
            (None, Some(path)) => Ok(Input::File(path)),
            (Some(commands), None) => Ok(Input::Commands(commands)),
        },
{
    match (command, file) {
        (Some(_), Some(_)) => Err(UsageError::BothCommandAndFile),
        (None, None) => Err(UsageError::NeitherCommandNorFile),
        (None, Some(path)) => Ok(Input::File(path)),
        (Some(commands), None) => Ok(Input::Commands(commands)),
    }
}

/// What `sqlparser` makes of a text under its generic dialect: the
/// statements it holds, each printed back, in order; or the parser's
/// complaint.
pub uninterp spec fn parsed_sql(contents: Seq<char>) -> Result<Seq<Seq<char>>, Seq<char>>;

/// The mathematical value of what a parse gave.
pub open spec fn parsed_view(parsed: Result<Vec<String>, String>) -> Result<
    Seq<Seq<char>>,
    Seq<char>,
> {
    match parsed {
        Ok(statements) => Ok(statements.deep_view()),
        Err(complaint) => Err(complaint@),
    }
}

/// Calls `sqlparser::parser::Parser::parse_sql` on `contents` with the
/// generic dialect, and prints each statement, or the error. Trusted: what
/// comes back depends on `contents` alone.
#[verifier::external_body]
fn parse_sql(contents: &str) -> (parsed: Result<Vec<String>, String>)
    ensures
        parsed_view(parsed) == parsed_sql(contents@),
{
    match sqlparser::parser::Parser::parse_sql(&sqlparser::dialect::GenericDialect {}, contents) {
        Ok(ast) => Ok(ast.into_iter().map(|statement| statement.to_string()).collect()),
        Err(error) => Err(error.to_string()),
    }
}

/// The statements of a parsed text, or the error that invalid SQL is.
pub open spec fn statements_or_invalid(parsed: Result<Seq<Seq<char>>, Seq<char>>) -> Result<
    Seq<Seq<char>>,
    ErrorView,
> {
    match parsed {
        Ok(statements) => Ok(statements),
        Err(complaint) => Err(ErrorView::InvalidSql(complaint)),
    }
}

/// The mathematical value of statements, or of the error in their place.
pub open spec fn statements_view(statements: Result<Vec<String>, Error>) -> Result<
    Seq<Seq<char>>,
    ErrorView,
> {
    match statements {
        Ok(statements) => Ok(statements.deep_view()),
        Err(error) => Err(error@),
    }
}

/// Turns what a parse gave into the statements to run: a complaint of the
/// parser becomes the error of invalid SQL, with the complaint as its text.
pub fn statements_from(parsed: Result<Vec<String>, String>) -> (statements: Result<
    Vec<String>,
    Error,
>)
    ensures
        statements_view(statements) == statements_or_invalid(parsed_view(parsed)),
{
    match parsed {
        Ok(statements) => Ok(statements),
        Err(complaint) => Err(Error::InvalidSql(complaint)),
    }
}

/// Splits the contents of a file of SQL into its statements.
pub fn statements(contents: &str) -> (statements: Result<Vec<String>, Error>)
    ensures
        statements_view(statements) == statements_or_invalid(parsed_sql(contents@)),
{
    statements_from(parse_sql(contents))
}

} // verus!
