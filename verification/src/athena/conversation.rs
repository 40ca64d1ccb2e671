//! Whole conversations with the service: where a run of replies leads, how
//! long it makes the caller wait, and what holds of every such run.

use crate::athena::execution::{
    ReplyView, StageView, StepView, POLL_INTERVAL_MS, RETRY_BUDGET, RETRY_DELAY_MS,
};
use crate::athena::page::{without_header, ResultPageView};
use crate::athena::status::{lemma_state_names, ExecutionStatusView};
use crate::athena::types::QueryResultView;
use crate::error::ErrorView;
use vstd::prelude::*;

verus! {

impl StageView {
    /// The pause, in milliseconds, that comes before the request of this
    /// stage.
    pub open spec fn delay(self) -> nat {
        match self {
            StageView::Polling { delay_ms, .. } => delay_ms as nat,
            _ => 0,
        }
    }

    /// Where a whole conversation leads: each reply in turn answers the
    /// request of the stage reached so far. Once the query has ended, what
    /// is left of the replies is not looked at.
    pub open spec fn run(self, replies: Seq<ReplyView>) -> StepView
        decreases replies.len(),
    {
        if replies.len() == 0 {
            StepView::Next(self)
        } else {
            match self.advance(replies[0]) {
                StepView::Next(stage) => stage.run(replies.drop_first()),
                StepView::Done(outcome) => StepView::Done(outcome),
            }
        }
    }

    /// The time, in milliseconds, spent pausing in the course of a
    /// conversation: the sum of the pauses before the requests that the
    /// replies lead to.
    pub open spec fn waited_ms(self, replies: Seq<ReplyView>) -> nat
        decreases replies.len(),
    {
        if replies.len() == 0 {
            0
        } else {
            match self.advance(replies[0]) {
                StepView::Next(stage) => stage.delay() + stage.waited_ms(replies.drop_first()),
                StepView::Done(_) => 0,
            }
        }
    }
}

impl StepView {
    /// What one more reply leads to from here.
    pub open spec fn followed_by(self, reply: ReplyView) -> StepView {
        match self {
            StepView::Next(stage) => stage.advance(reply),
            StepView::Done(outcome) => StepView::Done(outcome),
        }
    }

    /// What further replies lead to from here.
    pub open spec fn continued(self, replies: Seq<ReplyView>) -> StepView {
        match self {
            StepView::Next(stage) => stage.run(replies),
            StepView::Done(outcome) => StepView::Done(outcome),
        }
    }

    /// The pause that comes before the request of this step, if it has one.
    pub open spec fn delay(self) -> nat {
        match self {
            StepView::Next(stage) => stage.delay(),
            StepView::Done(_) => 0,
        }
    }
}

/// Whether the reply reports a request that failed.
pub open spec fn is_failure(reply: ReplyView) -> bool {
    reply is Failed
}

/// Whether the reply reports a query that is queued or running.
pub open spec fn is_in_progress(reply: ReplyView) -> bool {
    reply matches ReplyView::Status(status) && status.verdict() is InProgress
}

/// How many of the replies report a request that failed.
pub open spec fn failures(replies: Seq<ReplyView>) -> nat {
    replies.filter(|reply: ReplyView| is_failure(reply)).len()
}

/// How many of the replies report a query that is queued or running.
pub open spec fn in_progress(replies: Seq<ReplyView>) -> nat {
    replies.filter(|reply: ReplyView| is_in_progress(reply)).len()
}

/// Whether no reply settles the query: each reports a failed request, or a
/// query that is queued or running.
pub open spec fn undecided(replies: Seq<ReplyView>) -> bool {
    forall|i: int|
        0 <= i < replies.len() ==> is_failure(#[trigger] replies[i]) || is_in_progress(replies[i])
}

/// One more reply continues the conversation from where it stood.
pub proof fn lemma_run_push(stage: StageView, replies: Seq<ReplyView>, reply: ReplyView)
    ensures
        stage.run(replies.push(reply)) == stage.run(replies).followed_by(reply),
        stage.waited_ms(replies.push(reply)) == stage.waited_ms(replies) + (if stage.run(
            replies,
        ) is Next {
            stage.run(replies).followed_by(reply).delay()
        } else {
            0
        }),
    decreases replies.len(),
{
    let longer = replies.push(reply);
    if replies.len() == 0 {
        match stage.advance(reply) {
            StepView::Next(next) => {
                assert(next.run(longer.drop_first()) == StepView::Next(next));
                assert(next.waited_ms(longer.drop_first()) == 0);
            },
            StepView::Done(_) => {},
        }
    } else {
        assert(longer.drop_first() =~= replies.drop_first().push(reply));
        match stage.advance(replies[0]) {
            StepView::Next(next) => {
                lemma_run_push(next, replies.drop_first(), reply);
            },
            StepView::Done(_) => {},
        }
    }
}

/// Both counts, reply by reply.
pub proof fn lemma_counts_push(replies: Seq<ReplyView>, reply: ReplyView)
    ensures
        failures(replies.push(reply)) == failures(replies) + (if is_failure(reply) {
            1nat
        } else {
            0nat
        }),
        in_progress(replies.push(reply)) == in_progress(replies) + (if is_in_progress(reply) {
            1nat
        } else {
            0nat
        }),
{
    reveal(Seq::filter);
    let longer = replies.push(reply);
    assert(longer.drop_last() =~= replies);
}

/// Where there are no replies, there is nothing to count.
pub proof fn lemma_counts_empty()
    ensures
        failures(Seq::empty()) == 0,
        in_progress(Seq::empty()) == 0,
{
    reveal(Seq::filter);
}

/// The pause before the request that follows `replies`, none of which
/// settles the query, when `delay_ms` came before the first.
pub open spec fn pause_after(delay_ms: u64, replies: Seq<ReplyView>) -> u64 {
    if replies.len() == 0 {
        delay_ms
    } else if is_failure(replies.last()) {
        RETRY_DELAY_MS
    } else {
        POLL_INTERVAL_MS
    }
}

/// While nothing settles the query and the failed requests stay within the
/// budget, the status is asked for again and again, of the same execution:
/// the failures are counted, and the pauses add up to one poll interval for
/// each report of a query queued or running and one retry delay for each
/// failed request.
pub proof fn lemma_polling_goes_on(
    query_execution_id: Seq<char>,
    errors: u8,
    delay_ms: u64,
    replies: Seq<ReplyView>,
)
    requires
        undecided(replies),
        errors + failures(replies) <= RETRY_BUDGET,
    ensures
        StageView::polling(query_execution_id, errors, delay_ms).run(replies) == StepView::Next(
            StageView::polling(
                query_execution_id,
                (errors + failures(replies)) as u8,
                pause_after(delay_ms, replies),
            ),
        ),
        StageView::polling(query_execution_id, errors, delay_ms).waited_ms(replies)
            == POLL_INTERVAL_MS * in_progress(replies) + RETRY_DELAY_MS * failures(replies),
    decreases replies.len(),
{
    let start = StageView::polling(query_execution_id, errors, delay_ms);
    if replies.len() == 0 {
        lemma_counts_empty();
    } else {
        let earlier = replies.drop_last();
        let reply = replies.last();
        assert(replies =~= earlier.push(reply));
        lemma_counts_push(earlier, reply);
        lemma_polling_goes_on(query_execution_id, errors, delay_ms, earlier);
        lemma_run_push(start, earlier, reply);
    }
}

/// A query that is queued or running is asked about until it has succeeded:
/// whatever the run of such reports, with failed requests within the budget
/// among them, the report of success that follows them opens the reading of
/// the results, with its statistics; and the time spent pausing is one poll
/// interval for each report of a query queued or running, plus one retry
/// delay for each failed request.
pub proof fn lemma_poll_until_success(
    query_execution_id: Seq<char>,
    replies: Seq<ReplyView>,
    last: ExecutionStatusView,
)
    requires
        undecided(replies),
        failures(replies) <= RETRY_BUDGET,
        (last.verdict() is Succeeded),
    ensures
        StageView::first_poll(query_execution_id).run(replies.push(ReplyView::Status(last)))
            == StepView::Next(
            StageView::first_page(
                QueryResultView::seeded(query_execution_id, last.verdict()->Succeeded_0),
            ),
        ),
        StageView::first_poll(query_execution_id).waited_ms(replies.push(ReplyView::Status(last)))
            == POLL_INTERVAL_MS * in_progress(replies) + RETRY_DELAY_MS * failures(replies),
{
    let start = StageView::first_poll(query_execution_id);
    lemma_polling_goes_on(query_execution_id, 0, 0, replies);
    lemma_run_push(start, replies, ReplyView::Status(last));
}

/// Failed status requests within the budget change nothing but the count:
/// the status report that follows them is judged as if it had come at once.
pub proof fn lemma_failures_within_budget(
    query_execution_id: Seq<char>,
    replies: Seq<ReplyView>,
    status: ExecutionStatusView,
)
    requires
        undecided(replies),
        failures(replies) <= RETRY_BUDGET,
    ensures
        StageView::first_poll(query_execution_id).run(replies.push(ReplyView::Status(status)))
            == StageView::after_status(
            query_execution_id,
            failures(replies) as u8,
            ReplyView::Status(status),
        ),
{
    let start = StageView::first_poll(query_execution_id);
    lemma_polling_goes_on(query_execution_id, 0, 0, replies);
    lemma_run_push(start, replies, ReplyView::Status(status));
}

/// Once the query has ended, further replies change nothing.
pub proof fn lemma_run_after_end(stage: StageView, replies: Seq<ReplyView>, rest: Seq<ReplyView>)
    requires
        (stage.run(replies) is Done),
    ensures
        stage.run(replies + rest) == stage.run(replies),
    decreases rest.len(),
{
    if rest.len() > 0 {
        let earlier = rest.drop_last();
        assert(replies + rest =~= (replies + earlier).push(rest.last()));
        lemma_run_after_end(stage, replies, earlier);
        lemma_run_push(stage, replies + earlier, rest.last());
    }
}

/// A conversation in two parts leads where its second part leads from
/// where the first arrived.
pub proof fn lemma_run_add(stage: StageView, first: Seq<ReplyView>, second: Seq<ReplyView>)
    ensures
        stage.run(first + second) == stage.run(first).continued(second),
    decreases second.len(),
{
    if second.len() > 0 {
        let earlier = second.drop_last();
        assert(second =~= earlier.push(second.last()));
        lemma_run_add(stage, first, earlier);
        lemma_run_push(stage, first + earlier, second.last());
        if let StepView::Next(reached) = stage.run(first) {
            lemma_run_push(reached, earlier, second.last());
        }
    }
}

/// The failed request that exceeds the budget ends the query with a poll
/// error, whatever comes after it.
pub proof fn lemma_budget_exhausted(
    query_execution_id: Seq<char>,
    replies: Seq<ReplyView>,
    text: Seq<char>,
    rest: Seq<ReplyView>,
)
    requires
        undecided(replies),
        failures(replies) == RETRY_BUDGET,
    ensures
        StageView::first_poll(query_execution_id).run(replies.push(ReplyView::Failed(text)) + rest)
            == StepView::Done(Err(ErrorView::PollError)),
{
    let start = StageView::first_poll(query_execution_id);
    lemma_polling_goes_on(query_execution_id, 0, 0, replies);
    lemma_run_push(start, replies, ReplyView::Failed(text));
    lemma_run_after_end(start, replies.push(ReplyView::Failed(text)), rest);
}

/// A failure is reported with the reason that the service gave, word for
/// word, however many requests failed before within the budget.
pub proof fn lemma_failure_reason_kept(
    query_execution_id: Seq<char>,
    replies: Seq<ReplyView>,
    status: ExecutionStatusView,
    reason: Seq<char>,
)
    requires
        undecided(replies),
        failures(replies) <= RETRY_BUDGET,
        status.state == Some("FAILED"@),
        status.state_change_reason == Some(reason),
    ensures
        StageView::first_poll(query_execution_id).run(replies.push(ReplyView::Status(status)))
            == StepView::Done(Err(ErrorView::QueryFailed(reason))),
{
    lemma_state_names();
    lemma_failures_within_budget(query_execution_id, replies, status);
}

/// A report of a state from which no transition is expected ends the poll;
/// a report of a query queued or running continues it after one poll
/// interval, with the count of failed requests unchanged.
pub proof fn lemma_terminal_states_end_the_poll(
    query_execution_id: Seq<char>,
    errors: u8,
    status: ExecutionStatusView,
)
    ensures
        status.query_state() matches Some(state) ==> (state.is_terminal()
            <==> !StageView::after_status(
            query_execution_id,
            errors,
            ReplyView::Status(status),
        ).polls_again()),
        status.query_state() matches Some(state) && !state.is_terminal()
            ==> StageView::after_status(query_execution_id, errors, ReplyView::Status(status))
            == StepView::Next(StageView::polling(query_execution_id, errors, POLL_INTERVAL_MS)),
        status.query_state() is None ==> StageView::after_status(
            query_execution_id,
            errors,
            ReplyView::Status(status),
        ) == StepView::Done(Err(ErrorView::ProtocolError)),
{
}

/// A query ends with a result in one way only: the last page of the result
/// has been read, well formed and naming no other. No failure, no status
/// report and no broken page is ever turned into a result.
pub proof fn lemma_result_comes_of_the_last_page(stage: StageView, reply: ReplyView)
    requires
        (stage.advance(reply) matches StepView::Done(Ok(_))),
    ensures
        (stage is Draining),
        reply matches ReplyView::Page(page) && page.well_formed() && page.next_token is None,
{
}

/// A step keeps the row counter in agreement with the rows.
pub proof fn lemma_row_count_kept(stage: StageView, reply: ReplyView)
    requires
        stage.wf(),
    ensures
        stage.advance(reply).wf(),
{
}

/// Throughout a conversation the row counter agrees with the rows: after
/// every page, and in the result at the end.
pub proof fn lemma_row_count_kept_throughout(stage: StageView, replies: Seq<ReplyView>)
    requires
        stage.wf(),
    ensures
        forall|n: int| 0 <= n <= replies.len() ==> (#[trigger] stage.run(replies.take(n))).wf(),
        stage.run(replies).wf(),
    decreases replies.len(),
{
    assert(replies.take(replies.len() as int) =~= replies);
    if replies.len() > 0 {
        let earlier = replies.drop_last();
        lemma_row_count_kept_throughout(stage, earlier);
        assert forall|n: int| 0 <= n <= replies.len() implies (#[trigger] stage.run(
            replies.take(n),
        )).wf() by {
            if n < replies.len() {
                assert(replies.take(n) =~= earlier.take(n));
            } else {
                assert(replies.take(n) =~= earlier.push(replies.last()));
                lemma_run_push(stage, earlier, replies.last());
                if let StepView::Next(reached) = stage.run(earlier) {
                    lemma_row_count_kept(reached, replies.last());
                }
            }
        }
    }
}

/// From the moment the submission is acknowledged, every request is about
/// the execution that the service named then, and so is the result.
pub proof fn lemma_execution_kept(stage: StageView, replies: Seq<ReplyView>, id: Seq<char>)
    requires
        stage.execution() == Some(id),
    ensures
        stage.run(replies).concerns(id),
    decreases replies.len(),
{
    if replies.len() > 0 {
        if let StepView::Next(next) = stage.advance(replies[0]) {
            lemma_execution_kept(next, replies.drop_first(), id);
        }
    }
}

/// The replies that bring `pages`, one each.
pub open spec fn page_replies(pages: Seq<ResultPageView>) -> Seq<ReplyView> {
    Seq::new(pages.len(), |i: int| ReplyView::Page(pages[i]))
}

/// Whether `pages` can follow one another: there is at least one, each is
/// well formed, and each but the last names the page after it.
pub open spec fn pages_chained(pages: Seq<ResultPageView>) -> bool {
    &&& pages.len() > 0
    &&& forall|i: int| 0 <= i < pages.len() ==> (#[trigger] pages[i]).well_formed()
    &&& forall|i: int| 0 <= i < pages.len() - 1 ==> (#[trigger] pages[i]).next_token is Some
}

/// The data rows of the pages of one result, in order: all the rows but the
/// header, which is the first row of the first page.
pub open spec fn data_rows(pages: Seq<ResultPageView>) -> Seq<Seq<Seq<char>>>
    decreases pages.len(),
{
    if pages.len() == 0 {
        Seq::empty()
    } else {
        data_rows(pages.drop_last()) + pages.last().body(pages.len() == 1)
    }
}

impl QueryResultView {
    /// This result once `pages`, which follow one another, have been read
    /// into it: the column names of the first page, and the data rows of all
    /// of them after the rows already held, each counted.
    pub open spec fn filled_from(self, pages: Seq<ResultPageView>) -> QueryResultView {
        QueryResultView {
            columns: pages[0].columns->0,
            data: self.data + data_rows(pages),
            rows: self.rows + data_rows(pages).len(),
            ..self
        }
    }
}

/// What reading a result ends in, once its last page so far, which names
/// the next page or none, has been taken in.
pub open spec fn after_last_page(
    filled: QueryResultView,
    next_token: Option<Seq<char>>,
) -> StepView {
    match next_token {
        Some(token) => StepView::Next(StageView::later_page(filled, token)),
        None => StepView::Done(Ok(filled)),
    }
}

/// Reading the pages of a result one after the other gathers the column
/// names of the first page and, in page order and in the order within each
/// page, every row but the header; the reading goes on as long as the last
/// page names another, and ends with the result when it names none.
pub proof fn lemma_pages_drained(result: QueryResultView, pages: Seq<ResultPageView>)
    requires
        pages_chained(pages),
    ensures
        StageView::first_page(result).run(page_replies(pages)) == after_last_page(
            result.filled_from(pages),
            pages.last().next_token,
        ),
    decreases pages.len(),
{
    let start = StageView::first_page(result);
    let last = pages.last();
    let earlier = pages.drop_last();
    assert(page_replies(pages) =~= page_replies(earlier).push(ReplyView::Page(last)));
    lemma_run_push(start, page_replies(earlier), ReplyView::Page(last));
    if pages.len() == 1 {
        assert(data_rows(earlier) =~= Seq::empty());
    } else {
        lemma_pages_drained(result, earlier);
        let before = result.filled_from(earlier);
        assert(before.data + last.body(false) =~= result.data + data_rows(pages));
    }
}

/// A result in two pages holds the rows of the first page but its header,
/// then the rows of the second, under the column names of the first.
pub proof fn lemma_two_pages_drained(
    result: QueryResultView,
    first: ResultPageView,
    second: ResultPageView,
)
    requires
        first.well_formed(),
        (first.next_token is Some),
        second.well_formed(),
        (second.next_token is None),
    ensures
        StageView::first_page(result).run(seq![ReplyView::Page(first), ReplyView::Page(second)])
            == StepView::Done(
            Ok(
                (QueryResultView {
                    columns: first.columns->0,
                    data: result.data + without_header(first.table()) + second.table(),
                    rows: result.rows + without_header(first.table()).len() + second.table().len(),
                    ..result
                }),
            ),
        ),
{
    let pages = seq![first, second];
    assert(page_replies(pages) =~= seq![ReplyView::Page(first), ReplyView::Page(second)]);
    lemma_pages_drained(result, pages);
    assert(pages.drop_last() =~= seq![first]);
    assert(seq![first].drop_last() =~= Seq::empty());
    assert(data_rows(seq![first]) =~= without_header(first.table())) by {
        assert(data_rows(Seq::<ResultPageView>::empty()) =~= Seq::empty());
    }
    assert(result.data + data_rows(pages) =~= result.data + without_header(first.table())
        + second.table());
}

/// The replies of a query that runs to its end without mishap: the
/// submission is acknowledged under `id`; then come `polls`, none of which
/// settles the query, then the report `last` of its success; then `pages`,
/// the pages of its result, up to the one that names no other.
pub open spec fn smooth_replies(
    id: Seq<char>,
    polls: Seq<ReplyView>,
    last: ExecutionStatusView,
    pages: Seq<ResultPageView>,
) -> Seq<ReplyView> {
    seq![ReplyView::Started(Some(id))] + polls.push(ReplyView::Status(last)) + page_replies(pages)
}

/// A query from its submission to its result: once the service has named
/// the execution, reports of a query queued or running, and failed requests
/// within the budget, only delay the report of success; the result then
/// holds the execution, the statistics of that report, the column names of
/// the first page and every data row of the pages, in order and counted.
pub proof fn lemma_query_runs_to_its_result(
    opening: StageView,
    id: Seq<char>,
    polls: Seq<ReplyView>,
    last: ExecutionStatusView,
    pages: Seq<ResultPageView>,
)
    requires
        (opening is Submitting),
        undecided(polls),
        failures(polls) <= RETRY_BUDGET,
        (last.verdict() is Succeeded),
        pages_chained(pages),
        (pages.last().next_token is None),
    ensures
        opening.run(smooth_replies(id, polls, last, pages)) == StepView::Done(
            Ok(QueryResultView::seeded(id, last.verdict()->Succeeded_0).filled_from(pages)),
        ),
{
    let started = seq![ReplyView::Started(Some(id))];
    let polled = polls.push(ReplyView::Status(last));
    let seeded = QueryResultView::seeded(id, last.verdict()->Succeeded_0);
    assert(smooth_replies(id, polls, last, pages) =~= started + (polled + page_replies(pages)));
    lemma_run_add(opening, started, polled + page_replies(pages));
    lemma_run_push(opening, Seq::empty(), ReplyView::Started(Some(id)));
    lemma_run_add(StageView::first_poll(id), polled, page_replies(pages));
    lemma_poll_until_success(id, polls, last);
    lemma_pages_drained(seeded, pages);
}

} // verus!
