//! The errors of this library.

use vstd::prelude::*;
use vstd::string::*;

verus! {

/// Everything that can end a query, or the preparation of one, early.
///
/// Causes that arise outside this library are carried as their display text.
#[derive(Debug, Clone, PartialEq, Eq)]
pub enum Error {
    /// The service rejected the submission, or acknowledged it without an
    /// execution id.
    SubmissionError,
    /// Too many status requests in a row of one query went unanswered.
    PollError,
    ConnectionError,
    /// A request for a page of results failed.
    GetQueryResultsError(String),
    InvalidProxy(String),
    InvalidRegion,
    InvalidSql(String),
    TracingFormat,
    /// A reply that breaks the service's own contract: an unknown state, a
    /// terminal state without the fields it must carry, a malformed page, or
    /// a reply of the wrong kind.
    ProtocolError,
    QueryCancelled,
    /// The service ran the query and reports that it failed, with its reason
    /// word for word.
    QueryFailed(String),
    IoErr(String),
}

/// The mathematical value of an [`Error`].
pub enum ErrorView {
    SubmissionError,
    PollError,
    ConnectionError,
    GetQueryResultsError(Seq<char>),
    InvalidProxy(Seq<char>),
    InvalidRegion,
    InvalidSql(Seq<char>),
    TracingFormat,
    ProtocolError,
    QueryCancelled,
    QueryFailed(Seq<char>),
    IoErr(Seq<char>),
}

impl View for Error {
    type V = ErrorView;

    open spec fn view(&self) -> ErrorView {
        match self {
            Error::SubmissionError => ErrorView::SubmissionError,
            Error::PollError => ErrorView::PollError,
            Error::ConnectionError => ErrorView::ConnectionError,
            Error::GetQueryResultsError(text) => ErrorView::GetQueryResultsError(text@),
            Error::InvalidProxy(text) => ErrorView::InvalidProxy(text@),
            Error::InvalidRegion => ErrorView::InvalidRegion,
            Error::InvalidSql(text) => ErrorView::InvalidSql(text@),
            Error::TracingFormat => ErrorView::TracingFormat,
            Error::ProtocolError => ErrorView::ProtocolError,
            Error::QueryCancelled => ErrorView::QueryCancelled,
            Error::QueryFailed(reason) => ErrorView::QueryFailed(reason@),
            Error::IoErr(text) => ErrorView::IoErr(text@),
        }
    }
}

impl ErrorView {
    /// The line shown to a person for this error.
    pub open spec fn message(self) -> Seq<char> {
        match self {
            ErrorView::SubmissionError => "Athena API error encountered"@,
            ErrorView::PollError => "Athena API error encountered"@,
            ErrorView::ConnectionError => "Error connecting to AWS"@,
            ErrorView::GetQueryResultsError(text) => "Error getting query results: "@ + text,
            ErrorView::InvalidProxy(text) => "Invalid proxy URI: "@ + text,
            ErrorView::InvalidRegion => "Invalid region specified"@,
            ErrorView::InvalidSql(text) => "Invalid SQL in provided file: "@ + text,
            ErrorView::TracingFormat => "ATHENACLI_LOG contained invalid format"@,
            ErrorView::ProtocolError => "Unknown error executing query"@,
            ErrorView::QueryCancelled => "Query cancelled"@,
            ErrorView::QueryFailed(reason) => "Query failed: "@ + reason,
            ErrorView::IoErr(text) => "I/O error: "@ + text,
        }
    }
}

impl Error {
    /// Renders the error as one line of text.
    pub fn message(&self) -> (text: String)
        ensures
            text@ == self@.message(),
    {
        match self {
            Error::SubmissionError => "Athena API error encountered".to_owned(),
            Error::PollError => "Athena API error encountered".to_owned(),
            Error::ConnectionError => "Error connecting to AWS".to_owned(),
            Error::GetQueryResultsError(text) => "Error getting query results: ".to_owned().concat(
                text.as_str(),
            ),
            Error::InvalidProxy(text) => "Invalid proxy URI: ".to_owned().concat(text.as_str()),
            Error::InvalidRegion => "Invalid region specified".to_owned(),
            Error::InvalidSql(text) => "Invalid SQL in provided file: ".to_owned().concat(
                text.as_str(),
            ),
            Error::TracingFormat => "ATHENACLI_LOG contained invalid format".to_owned(),
            Error::ProtocolError => "Unknown error executing query".to_owned(),
            Error::QueryCancelled => "Query cancelled".to_owned(),
            Error::QueryFailed(reason) => "Query failed: ".to_owned().concat(reason.as_str()),
            Error::IoErr(text) => "I/O error: ".to_owned().concat(text.as_str()),
        }
    }
}

} // verus!
