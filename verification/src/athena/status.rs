//! Status reports: the states of an execution, and what a report means for
//! the query.

use vstd::prelude::*;

verus! {

/// The states in which the service reports an execution. The set is closed:
/// any other name is a breach of protocol.
#[derive(Debug, Clone, Copy, PartialEq, Eq)]
pub enum QueryState {
    Queued,
    Running,
    Succeeded,
    Failed,
    Cancelled,
}

/// The state that the service means by `name`, if it is one of the five.
pub open spec fn state_named(name: Seq<char>) -> Option<QueryState> {
    if name == "SUCCEEDED"@ {
        Some(QueryState::Succeeded)
    } else if name == "FAILED"@ {
        Some(QueryState::Failed)
    } else if name == "CANCELLED"@ {
        Some(QueryState::Cancelled)
    } else if name == "RUNNING"@ {
        Some(QueryState::Running)
    } else if name == "QUEUED"@ {
        Some(QueryState::Queued)
    } else {
        None
    }
}

/// Each of the five names means its own state.
pub proof fn lemma_state_names()
    ensures
        state_named("SUCCEEDED"@) == Some(QueryState::Succeeded),
        state_named("FAILED"@) == Some(QueryState::Failed),
        state_named("CANCELLED"@) == Some(QueryState::Cancelled),
        state_named("RUNNING"@) == Some(QueryState::Running),
        state_named("QUEUED"@) == Some(QueryState::Queued),
{
    reveal_strlit("SUCCEEDED");
    reveal_strlit("FAILED");
    reveal_strlit("CANCELLED");
    reveal_strlit("RUNNING");
    reveal_strlit("QUEUED");
    assert("CANCELLED"@.len() == 9 && "CANCELLED"@[0] == 'C' && "SUCCEEDED"@[0] == 'S');
    assert("QUEUED"@.len() == 6 && "QUEUED"@[0] == 'Q' && "FAILED"@[0] == 'F');
}

/// Whether `text` reads exactly as `name`.
fn reads_as(text: &String, name: &str) -> (same: bool)
    ensures
        same == (text@ == name@),
{
    *text == name.to_owned()
}

impl QueryState {
    /// Reads a state from the name under which the service reports it.
    pub fn from_name(name: &String) -> (state: Option<QueryState>)
        ensures
            state == state_named(name@),
    {
        if reads_as(name, "SUCCEEDED") {
            Some(QueryState::Succeeded)
        } else if reads_as(name, "FAILED") {
            Some(QueryState::Failed)
        } else if reads_as(name, "CANCELLED") {
            Some(QueryState::Cancelled)
        } else if reads_as(name, "RUNNING") {
            Some(QueryState::Running)
        } else if reads_as(name, "QUEUED") {
            Some(QueryState::Queued)
        } else {
            None
        }
    }

    /// Whether no further transition is expected from this state.
    pub open spec fn is_terminal(self) -> bool {
        self is Succeeded || self is Failed || self is Cancelled
    }
}

/// The metrics that the service finalizes for an execution.
#[derive(Debug, Clone, Copy, PartialEq, Eq)]
pub struct Statistics {
    pub data_scanned_bytes: i64,
    pub query_queue_time_ms: i64,
    pub total_execution_time_ms: i64,
}

/// One report of the service on an execution, field by field as it came.
/// An absent field is `None`.
#[derive(Debug, Clone, PartialEq, Eq)]
pub struct ExecutionStatus {
    pub state: Option<String>,
    pub state_change_reason: Option<String>,
    pub data_scanned_in_bytes: Option<i64>,
    pub query_queue_time_in_millis: Option<i64>,
    pub total_execution_time_in_millis: Option<i64>,
}

/// The mathematical value of an [`ExecutionStatus`].
pub struct ExecutionStatusView {
    pub state: Option<Seq<char>>,
    pub state_change_reason: Option<Seq<char>>,
    pub data_scanned_in_bytes: Option<i64>,
    pub query_queue_time_in_millis: Option<i64>,
    pub total_execution_time_in_millis: Option<i64>,
}

impl View for ExecutionStatus {
    type V = ExecutionStatusView;

    open spec fn view(&self) -> ExecutionStatusView {
        ExecutionStatusView {
            state: self.state.deep_view(),
            state_change_reason: self.state_change_reason.deep_view(),
            data_scanned_in_bytes: self.data_scanned_in_bytes,
            query_queue_time_in_millis: self.query_queue_time_in_millis,
            total_execution_time_in_millis: self.total_execution_time_in_millis,
        }
    }
}

/// What one status report means for the query.
#[derive(Debug, Clone, PartialEq, Eq)]
pub enum Verdict {
    /// The query succeeded and its metrics are final.
    Succeeded(Statistics),
    /// The query failed, for the reason given.
    Failed(String),
    /// The query was cancelled.
    Cancelled,
    /// The query is queued or running: ask again later.
    InProgress,
    /// The report breaks the protocol.
    Anomalous,
}

/// The mathematical value of a [`Verdict`].
pub enum VerdictView {
    Succeeded(Statistics),
    Failed(Seq<char>),
    Cancelled,
    InProgress,
    Anomalous,
}

impl View for Verdict {
    type V = VerdictView;

    open spec fn view(&self) -> VerdictView {
        match self {
            Verdict::Succeeded(statistics) => VerdictView::Succeeded(*statistics),
            Verdict::Failed(reason) => VerdictView::Failed(reason@),
            Verdict::Cancelled => VerdictView::Cancelled,
            Verdict::InProgress => VerdictView::InProgress,
            Verdict::Anomalous => VerdictView::Anomalous,
        }
    }
}

impl ExecutionStatusView {
    /// The metrics of the report, present only if each of the three is.
    pub open spec fn statistics(self) -> Option<Statistics> {
        match (
            self.data_scanned_in_bytes,
            self.query_queue_time_in_millis,
            self.total_execution_time_in_millis,
        ) {
            (Some(scanned), Some(queued), Some(total)) => Some(
                Statistics {
                    data_scanned_bytes: scanned,
                    query_queue_time_ms: queued,
                    total_execution_time_ms: total,
                },
            ),
            _ => None,
        }
    }

    /// The state of the report, if it names one of the five.
    pub open spec fn query_state(self) -> Option<QueryState> {
        match self.state {
            Some(name) => state_named(name),
            None => None,
        }
    }

    /// What the report means. A success must carry all its metrics, and a
    /// failure or a cancellation its reason; a report without a state, with
    /// an unknown one, or without what its state must carry is anomalous.
    pub open spec fn verdict(self) -> VerdictView {
        match self.query_state() {
            Some(QueryState::Succeeded) => match self.statistics() {
                Some(statistics) => VerdictView::Succeeded(statistics),
                None => VerdictView::Anomalous,
            },
            Some(QueryState::Failed) => match self.state_change_reason {
                Some(reason) => VerdictView::Failed(reason),
                None => VerdictView::Anomalous,
            },
            Some(QueryState::Cancelled) => match self.state_change_reason {
                Some(_) => VerdictView::Cancelled,
                None => VerdictView::Anomalous,
            },
            Some(QueryState::Running) | Some(QueryState::Queued) => VerdictView::InProgress,
            None => VerdictView::Anomalous,
        }
    }
}

impl ExecutionStatus {
    /// The metrics of the report, present only if each of the three is.
    pub fn statistics(&self) -> (found: Option<Statistics>)
        ensures
            found == self@.statistics(),
    {
        match (
            self.data_scanned_in_bytes,
            self.query_queue_time_in_millis,
            self.total_execution_time_in_millis,
        ) {
            (Some(scanned), Some(queued), Some(total)) => Some(
                Statistics {
                    data_scanned_bytes: scanned,
                    query_queue_time_ms: queued,
                    total_execution_time_ms: total,
                },
            ),
            _ => None,
        }
    }

    /// Decides what the report means for the query.
    pub fn classify(self) -> (verdict: Verdict)
        ensures
            verdict@ == self@.verdict(),
    {
        let statistics = self.statistics();
        let state = match &self.state {
            Some(name) => QueryState::from_name(name),
            None => None,
        };
        match state {
            Some(QueryState::Succeeded) => match statistics {
                Some(statistics) => Verdict::Succeeded(statistics),
                None => Verdict::Anomalous,
            },
            Some(QueryState::Failed) => match self.state_change_reason {
                Some(reason) => Verdict::Failed(reason),
                None => Verdict::Anomalous,
            },
            Some(QueryState::Cancelled) => match self.state_change_reason {
                Some(_) => Verdict::Cancelled,
                None => Verdict::Anomalous,
            },
            Some(QueryState::Running) | Some(QueryState::Queued) => Verdict::InProgress,
            None => Verdict::Anomalous,
        }
    }
}

} // verus!
