//! One query as a sequence of stages: what is to be asked of the service
//! next, and what each reply leads to.

use crate::athena::page::{ResultPage, ResultPageView};
use crate::athena::status::{ExecutionStatus, ExecutionStatusView, Verdict, VerdictView};
use crate::athena::types::{QueryResult, QueryResultView};
use crate::error::{Error, ErrorView};
use vstd::prelude::*;

verus! {

/// How many failed status requests one query tolerates.
pub const RETRY_BUDGET: u8 = 5;

/// The pause, in milliseconds, before a failed status request is repeated.
pub const RETRY_DELAY_MS: u64 = 250;

/// The pause, in milliseconds, before the status of a query that is queued
/// or running is asked for again.
pub const POLL_INTERVAL_MS: u64 = 1000;

/// What is sent to the service to start a query.
#[derive(Debug, Clone, PartialEq, Eq)]
pub struct Submission {
    /// Guards against the same submission being made twice.
    pub client_request_token: String,
    pub query_string: String,
    pub output_location: String,
    pub database: String,
    pub work_group: Option<String>,
}

/// The mathematical value of a [`Submission`].
pub struct SubmissionView {
    pub client_request_token: Seq<char>,
    pub query_string: Seq<char>,
    pub output_location: Seq<char>,
    pub database: Seq<char>,
    pub work_group: Option<Seq<char>>,
}

impl View for Submission {
    type V = SubmissionView;

    open spec fn view(&self) -> SubmissionView {
        SubmissionView {
            client_request_token: self.client_request_token@,
            query_string: self.query_string@,
            output_location: self.output_location@,
            database: self.database@,
            work_group: self.work_group.deep_view(),
        }
    }
}

/// What came back from the service for the request that a [`Stage`] stands
/// for.
#[derive(Debug, Clone, PartialEq, Eq)]
pub enum Reply {
    /// The submission was acknowledged, with the execution id if there was
    /// one.
    Started(Option<String>),
    /// A status report.
    Status(ExecutionStatus),
    /// A page of results.
    Page(ResultPage),
    /// The request failed in transport or was refused: the text of the
    /// failure.
    Failed(String),
}

/// The mathematical value of a [`Reply`].
pub enum ReplyView {
    Started(Option<Seq<char>>),
    Status(ExecutionStatusView),
    Page(ResultPageView),
    Failed(Seq<char>),
}

impl View for Reply {
    type V = ReplyView;

    open spec fn view(&self) -> ReplyView {
        match self {
            Reply::Started(id) => ReplyView::Started(id.deep_view()),
            Reply::Status(status) => ReplyView::Status(status@),
            Reply::Page(page) => ReplyView::Page(page@),
            Reply::Failed(text) => ReplyView::Failed(text@),
        }
    }
}

/// Where one query stands: the request that is to be made next, with all
/// that has been gathered so far.
#[derive(Debug, Clone, PartialEq, Eq)]
pub enum Stage {
    /// The query is to be submitted.
    Submitting { submission: Submission },
    /// The status of the execution is to be asked for, once `delay_ms`
    /// milliseconds have passed; `errors` status requests have failed so far.
    Polling { query_execution_id: String, errors: u8, delay_ms: u64 },
    /// The next page of results is to be fetched: the first one if there is
    /// no token, else the one that the token stands for.
    Draining { result: QueryResult, next_token: Option<String> },
}

/// The mathematical value of a [`Stage`].
pub enum StageView {
    Submitting { submission: SubmissionView },
    Polling { query_execution_id: Seq<char>, errors: u8, delay_ms: u64 },
    Draining { result: QueryResultView, next_token: Option<Seq<char>> },
}

impl View for Stage {
    type V = StageView;

    open spec fn view(&self) -> StageView {
        match self {
            Stage::Submitting { submission } => StageView::Submitting { submission: submission@ },
            Stage::Polling { query_execution_id, errors, delay_ms } => StageView::Polling {
                query_execution_id: query_execution_id@,
                errors: *errors,
                delay_ms: *delay_ms,
            },
            Stage::Draining { result, next_token } => StageView::Draining {
                result: result@,
                next_token: next_token.deep_view(),
            },
        }
    }
}

/// What a reply leads to: the next request, or the end of the query.
#[derive(Debug, PartialEq, Eq)]
pub enum Step {
    Next(Stage),
    Done(Result<QueryResult, Error>),
}

/// The mathematical value of a [`Step`].
pub enum StepView {
    Next(StageView),
    Done(Result<QueryResultView, ErrorView>),
}

impl View for Step {
    type V = StepView;

    open spec fn view(&self) -> StepView {
        match self {
            Step::Next(stage) => StepView::Next(stage@),
            Step::Done(Ok(result)) => StepView::Done(Ok(result@)),
            Step::Done(Err(error)) => StepView::Done(Err(error@)),
        }
    }
}

impl StepView {
    /// The row counter of the result, under way or finished, agrees with its
    /// rows.
    pub open spec fn wf(self) -> bool {
        match self {
            StepView::Next(stage) => stage.wf(),
            StepView::Done(Ok(result)) => result.wf(),
            StepView::Done(Err(_)) => true,
        }
    }

    /// Whether what this step holds belongs to the execution `id`: the next
    /// request is about it, or the result is its result.
    pub open spec fn concerns(self, id: Seq<char>) -> bool {
        match self {
            StepView::Next(stage) => stage.execution() == Some(id),
            StepView::Done(Ok(result)) => result.query_execution_id == id,
            StepView::Done(Err(_)) => true,
        }
    }

    /// Whether the status is to be asked for again.
    pub open spec fn polls_again(self) -> bool {
        self matches StepView::Next(stage) && stage is Polling
    }
}

impl StageView {
    /// The row counter of a result under way agrees with its rows.
    pub open spec fn wf(self) -> bool {
        self matches StageView::Draining { result, .. } ==> result.wf()
    }

    /// The execution that the request of this stage is about; before the
    /// submission is acknowledged there is none.
    pub open spec fn execution(self) -> Option<Seq<char>> {
        match self {
            StageView::Submitting { .. } => None,
            StageView::Polling { query_execution_id, .. } => Some(query_execution_id),
            StageView::Draining { result, .. } => Some(result.query_execution_id),
        }
    }

    /// The stage in which the status of `query_execution_id` is asked for
    /// after a pause of `delay_ms`, `errors` such requests having failed.
    pub open spec fn polling(
        query_execution_id: Seq<char>,
        errors: u8,
        delay_ms: u64,
    ) -> StageView {
        StageView::Polling { query_execution_id, errors, delay_ms }
    }

    /// The stage that follows the submission: the status is asked for at
    /// once, and no request has failed.
    pub open spec fn first_poll(query_execution_id: Seq<char>) -> StageView {
        StageView::Polling { query_execution_id, errors: 0, delay_ms: 0 }
    }

    /// The stage in which the first page of `result` is fetched.
    pub open spec fn first_page(result: QueryResultView) -> StageView {
        StageView::Draining { result, next_token: None }
    }

    /// The stage in which the page that `token` stands for is fetched.
    pub open spec fn later_page(result: QueryResultView, token: Seq<char>) -> StageView {
        StageView::Draining { result, next_token: Some(token) }
    }

    /// What follows the submission.
    pub open spec fn after_submission(reply: ReplyView) -> StepView {
        match reply {
            ReplyView::Started(Some(query_execution_id)) => StepView::Next(
                StageView::Polling { query_execution_id, errors: 0, delay_ms: 0 },
            ),
            ReplyView::Started(None) => StepView::Done(Err(ErrorView::SubmissionError)),
            ReplyView::Failed(_) => StepView::Done(Err(ErrorView::SubmissionError)),
            _ => StepView::Done(Err(ErrorView::ProtocolError)),
        }
    }

    /// What follows a status request of the execution `query_execution_id`
    /// after `errors` failed ones.
    pub open spec fn after_status(
        query_execution_id: Seq<char>,
        errors: u8,
        reply: ReplyView,
    ) -> StepView {
        match reply {
            ReplyView::Failed(_) => if errors >= RETRY_BUDGET {
                StepView::Done(Err(ErrorView::PollError))
            } else {
                StepView::Next(
                    StageView::Polling {
                        query_execution_id,
                        errors: (errors + 1) as u8,
                        delay_ms: RETRY_DELAY_MS,
                    },
                )
            },
            ReplyView::Status(status) => match status.verdict() {
                VerdictView::Succeeded(statistics) => StepView::Next(
                    StageView::Draining {
                        result: QueryResultView::seeded(query_execution_id, statistics),
                        next_token: None,
                    },
                ),
                VerdictView::Failed(reason) => StepView::Done(Err(ErrorView::QueryFailed(reason))),
                VerdictView::Cancelled => StepView::Done(Err(ErrorView::QueryCancelled)),
                VerdictView::InProgress => StepView::Next(
                    StageView::Polling { query_execution_id, errors, delay_ms: POLL_INTERVAL_MS },
                ),
                VerdictView::Anomalous => StepView::Done(Err(ErrorView::ProtocolError)),
            },
            _ => StepView::Done(Err(ErrorView::ProtocolError)),
        }
    }

    /// What follows the request for a page, made with `next_token`, when
    /// `result` has been gathered so far.
    pub open spec fn after_page(
        result: QueryResultView,
        next_token: Option<Seq<char>>,
        reply: ReplyView,
    ) -> StepView {
        match reply {
            ReplyView::Page(page) => if page.well_formed() {
                let grown = result.absorb(page, next_token is None);
                match page.next_token {
                    Some(token) => StepView::Next(
                        StageView::Draining { result: grown, next_token: Some(token) },
                    ),
                    None => StepView::Done(Ok(grown)),
                }
            } else {
                StepView::Done(Err(ErrorView::ProtocolError))
            },
            ReplyView::Failed(text) => StepView::Done(Err(ErrorView::GetQueryResultsError(text))),
            _ => StepView::Done(Err(ErrorView::ProtocolError)),
        }
    }

    /// What the reply to the request of this stage leads to.
    pub open spec fn advance(self, reply: ReplyView) -> StepView {
        match self {
            StageView::Submitting { .. } => Self::after_submission(reply),
            StageView::Polling { query_execution_id, errors, .. } => Self::after_status(
                query_execution_id,
                errors,
                reply,
            ),
            StageView::Draining { result, next_token } => Self::after_page(
                result,
                next_token,
                reply,
            ),
        }
    }

    /// Whether the row counter can take the rows that `reply` brings.
    pub open spec fn has_room_for(self, reply: ReplyView) -> bool {
        match (self, reply) {
            (StageView::Draining { result, next_token }, ReplyView::Page(page)) => {
                page.well_formed() ==> result.rows + page.body(next_token is None).len()
                    <= i64::MAX
            },
            _ => true,
        }
    }
}

impl Stage {
    /// Whether the row counter can take the rows that `reply` brings, as
    /// [`Stage::advance`] asks.
    pub fn has_room_for(&self, reply: &Reply) -> (room: bool)
        ensures
            room == self@.has_room_for(reply@),
    {
        match (self, reply) {
            (Stage::Draining { result, next_token }, Reply::Page(page)) => {
                if page.is_well_formed() {
                    let more = page.body_len(next_token.is_none());
                    result.rows as i128 + more as i128 <= i64::MAX as i128
                } else {
                    true
                }
            },
            _ => true,
        }
    }

    /// Decides what follows from the reply, if the row counter can take the
    /// rows that it brings; decides nothing if it cannot.
    pub fn try_advance(self, reply: Reply) -> (step: Option<Step>)
        ensures
            step is Some <==> self@.has_room_for(reply@),
            step matches Some(step) ==> step@ == self@.advance(reply@),
    {
        if self.has_room_for(&reply) {
            Some(self.advance(reply))
        } else {
            None
        }
    }

    /// Decides what follows from the reply to the request of this stage.
    pub fn advance(self, reply: Reply) -> (step: Step)
        requires
            self@.has_room_for(reply@),
        ensures
            step@ == self@.advance(reply@),
            self@.wf() ==> step@.wf(),
            self@.execution() matches Some(id) ==> step@.concerns(id),
    {
        match self {
            Stage::Submitting { submission } => match reply {
                Reply::Started(Some(query_execution_id)) => Step::Next(
                    Stage::Polling { query_execution_id, errors: 0, delay_ms: 0 },
                ),
                Reply::Started(None) => Step::Done(Err(Error::SubmissionError)),
                Reply::Failed(_) => Step::Done(Err(Error::SubmissionError)),
                _ => Step::Done(Err(Error::ProtocolError)),
            },
            Stage::Polling { query_execution_id, errors, delay_ms } => match reply {
                Reply::Failed(_) => if errors >= RETRY_BUDGET {
                    Step::Done(Err(Error::PollError))
                } else {
                    Step::Next(
                        Stage::Polling {
                            query_execution_id,
                            errors: errors + 1,
                            delay_ms: RETRY_DELAY_MS,
                        },
                    )
                },
                Reply::Status(status) => match status.classify() {
                    Verdict::Succeeded(statistics) => Step::Next(
                        Stage::Draining {
                            result: QueryResult::seeded(query_execution_id, statistics),
                            next_token: None,
                        },
                    ),
                    Verdict::Failed(reason) => Step::Done(Err(Error::QueryFailed(reason))),
                    Verdict::Cancelled => Step::Done(Err(Error::QueryCancelled)),
                    Verdict::InProgress => Step::Next(
                        Stage::Polling { query_execution_id, errors, delay_ms: POLL_INTERVAL_MS },
                    ),
                    Verdict::Anomalous => Step::Done(Err(Error::ProtocolError)),
                },
                _ => Step::Done(Err(Error::ProtocolError)),
            },
            Stage::Draining { result, next_token } => match reply {
                Reply::Page(page) => {
                    let mut result = result;
                    match result.absorb(page, next_token.is_none()) {
                        Ok(Some(token)) => Step::Next(
                            Stage::Draining { result, next_token: Some(token) },
                        ),
                        Ok(None) => Step::Done(Ok(result)),
                        Err(error) => Step::Done(Err(error)),
                    }
                },
                Reply::Failed(text) => Step::Done(Err(Error::GetQueryResultsError(text))),
                _ => Step::Done(Err(Error::ProtocolError)),
            },
        }
    }
}

} // verus!
