//! The result of a query, and how its statistics are shown.

use crate::athena::status::Statistics;
use vstd::prelude::*;

verus! {

/// The text that `byte_unit` gives for a count of bytes once it has picked
/// the unit that suits it, with binary multiples (KiB, MiB, ...) or decimal
/// ones (KB, MB, ...).
pub uninterp spec fn appropriate_unit_text(bytes: u128, binary_multiples: bool) -> Seq<char>;

/// The text that `humantime` gives for a duration of so many milliseconds.
pub uninterp spec fn duration_text(millis: u64) -> Seq<char>;

/// Calls `byte_unit::Byte::get_appropriate_unit` on `bytes` and prints what
/// it returns. Trusted: the text depends on the two arguments alone.
#[verifier::external_body]
fn appropriate_unit(bytes: u128, binary_multiples: bool) -> (text: String)
    ensures
        text@ == appropriate_unit_text(bytes, binary_multiples),
{
    byte_unit::Byte::from_bytes(bytes).get_appropriate_unit(binary_multiples).to_string()
}

/// Calls `humantime::format_duration` on a duration of `millis` milliseconds
/// and prints what it returns. Trusted: the text depends on `millis` alone.
#[verifier::external_body]
fn format_millis(millis: u64) -> (text: String)
    ensures
        text@ == duration_text(millis),
{
    humantime::format_duration(std::time::Duration::from_millis(millis)).to_string()
}

/// The rows and statistics of one finished query.
#[derive(Debug, Clone, PartialEq, Eq)]
pub struct QueryResult {
    pub query_execution_id: String,
    pub data: Vec<Vec<String>>,
    pub data_scanned_bytes: i64,
    pub query_queue_time_ms: i64,
    pub rows: i64,
    pub columns: Vec<String>,
    pub total_execution_time_ms: i64,
}

/// The mathematical value of a [`QueryResult`].
pub struct QueryResultView {
    pub query_execution_id: Seq<char>,
    pub data: Seq<Seq<Seq<char>>>,
    pub data_scanned_bytes: i64,
    pub query_queue_time_ms: i64,
    pub rows: int,
    pub columns: Seq<Seq<char>>,
    pub total_execution_time_ms: i64,
}

impl View for QueryResult {
    type V = QueryResultView;

    open spec fn view(&self) -> QueryResultView {
        QueryResultView {
            query_execution_id: self.query_execution_id@,
            data: self.data.deep_view(),
            data_scanned_bytes: self.data_scanned_bytes,
            query_queue_time_ms: self.query_queue_time_ms,
            rows: self.rows as int,
            columns: self.columns.deep_view(),
            total_execution_time_ms: self.total_execution_time_ms,
        }
    }
}

impl QueryResultView {
    /// The result of a query that succeeded, before any page is read.
    pub open spec fn seeded(
        query_execution_id: Seq<char>,
        statistics: Statistics,
    ) -> QueryResultView {
        QueryResultView {
            query_execution_id,
            data: Seq::empty(),
            data_scanned_bytes: statistics.data_scanned_bytes,
            query_queue_time_ms: statistics.query_queue_time_ms,
            rows: 0,
            columns: Seq::empty(),
            total_execution_time_ms: statistics.total_execution_time_ms,
        }
    }

    /// The row counter agrees with the rows held.
    pub open spec fn wf(self) -> bool {
        self.rows == self.data.len()
    }

    /// This result with `row` added at the end and counted.
    pub open spec fn append_row(self, row: Seq<Seq<char>>) -> QueryResultView {
        QueryResultView { data: self.data.push(row), rows: self.rows + 1, ..self }
    }
}

impl QueryResult {
    /// The result of a query that succeeded, before any page is read.
    pub fn seeded(query_execution_id: String, statistics: Statistics) -> (result: QueryResult)
        ensures
            result@ == QueryResultView::seeded(query_execution_id@, statistics),
            result@.wf(),
    {
        let result = QueryResult {
            query_execution_id,
            data: Vec::new(),
            data_scanned_bytes: statistics.data_scanned_bytes,
            query_queue_time_ms: statistics.query_queue_time_ms,
            rows: 0,
            columns: Vec::new(),
            total_execution_time_ms: statistics.total_execution_time_ms,
        };
        assert(result.data.deep_view() =~= Seq::empty());
        assert(result.columns.deep_view() =~= Seq::empty());
        result
    }

    /// Appends one row and counts it.
    pub fn append_row(&mut self, row: Vec<String>)
        requires
            old(self).rows < i64::MAX,
        ensures
            final(self)@ == old(self)@.append_row(row.deep_view()),
            final(self).data@ == old(self).data@.push(row),
            old(self)@.wf() ==> final(self)@.wf(),
    {
        self.data.push(row);
        self.rows += 1;
        assert(self.data.deep_view() =~= old(self).data.deep_view().push(row.deep_view()));
    }

    /// Whether the result counts no row.
    pub fn is_empty(&self) -> (empty: bool)
        ensures
            empty == (self@.rows == 0),
    {
        self.rows == 0
    }

    /// The amount of data scanned, in the decimal unit that suits it. The
    /// count is read as unsigned: a negative one stands for the number that
    /// has the same bits.
    pub fn data_scanned(&self) -> (text: String)
        ensures
            text@ == appropriate_unit_text(self.data_scanned_bytes as u128, false),
    {
        appropriate_unit(self.data_scanned_bytes as u128, false)
    }

    /// The time the query took from submission to completion, in words. The
    /// number of milliseconds is read as unsigned, as the count of bytes is.
    pub fn total_time(&self) -> (text: String)
        ensures
            text@ == duration_text(self.total_execution_time_ms as u64),
    {
        format_millis(self.total_execution_time_ms as u64)
    }
}

} // verus!
