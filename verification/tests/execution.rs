use athenacli::athena::{
    Athena, ExecutionStatus, QueryResult, Reply, ResultPage, Stage, Statistics, Step,
};
use athenacli::error::Error;

fn settings() -> Athena {
    Athena::new("eu-west-1", "analytics", "s3://results", Some("primary".to_string())).unwrap()
}

fn report(state: &str) -> ExecutionStatus {
    ExecutionStatus {
        state: Some(state.to_string()),
        state_change_reason: None,
        data_scanned_in_bytes: None,
        query_queue_time_in_millis: None,
        total_execution_time_in_millis: None,
    }
}

fn success(scanned: i64, queued: i64, total: i64) -> ExecutionStatus {
    ExecutionStatus {
        state: Some("SUCCEEDED".to_string()),
        state_change_reason: None,
        data_scanned_in_bytes: Some(scanned),
        query_queue_time_in_millis: Some(queued),
        total_execution_time_in_millis: Some(total),
    }
}

fn ended(state: &str, reason: &str) -> ExecutionStatus {
    ExecutionStatus { state_change_reason: Some(reason.to_string()), ..report(state) }
}

fn row(cells: &[&str]) -> Option<Vec<Option<String>>> {
    Some(cells.iter().map(|cell| Some(cell.to_string())).collect())
}

fn texts(cells: &[&str]) -> Vec<String> {
    cells.iter().map(|cell| cell.to_string()).collect()
}

fn page(
    columns: &[&str],
    rows: Vec<Option<Vec<Option<String>>>>,
    token: Option<&str>,
) -> ResultPage {
    ResultPage {
        columns: Some(texts(columns)),
        rows: Some(rows),
        next_token: token.map(|token| token.to_string()),
    }
}

fn failed() -> Reply {
    Reply::Failed("connection reset".to_string())
}

fn first_poll(id: &str) -> Stage {
    Stage::Polling { query_execution_id: id.to_string(), errors: 0, delay_ms: 0 }
}

fn first_page(id: &str) -> Stage {
    Stage::Draining {
        result: QueryResult::seeded(
            id.to_string(),
            Statistics {
                data_scanned_bytes: 0,
                query_queue_time_ms: 0,
                total_execution_time_ms: 0,
            },
        ),
        next_token: None,
    }
}

/// Plays the replies from `stage` on; gives where that leads, the pauses
/// before the requests made on the way, and the stages passed.
fn play(stage: Stage, replies: Vec<Reply>) -> (Step, Vec<u64>, Vec<Stage>) {
    let mut pauses = Vec::new();
    let mut passed = Vec::new();
    let mut stage = stage;
    for reply in replies {
        assert!(stage.has_room_for(&reply));
        match stage.advance(reply) {
            Step::Next(next) => {
                if let Stage::Polling { delay_ms, .. } = &next {
                    pauses.push(*delay_ms);
                }
                passed.push(next.clone());
                stage = next;
            }
            done => return (done, pauses, passed),
        }
    }
    (Step::Next(stage), pauses, passed)
}

#[test]
fn query_opens_with_the_submission() {
    let athena = settings();
    match athena.query_with_token("SELECT 1", "token-1".to_string()) {
        Stage::Submitting { submission } => {
            assert_eq!(submission.client_request_token, "token-1");
            assert_eq!(submission.query_string, "SELECT 1");
            assert_eq!(submission.output_location, "s3://results");
            assert_eq!(submission.database, "analytics");
            assert_eq!(submission.work_group, Some("primary".to_string()));
        }
        other => panic!("unexpected stage {:?}", other),
    }
}

#[test]
fn query_draws_a_token_of_uuid_shape() {
    let athena = settings();
    match athena.query("SELECT 1") {
        Stage::Submitting { submission } => {
            let token = submission.client_request_token;
            assert_eq!(token.len(), 36);
            let dashes: Vec<usize> =
                token.char_indices().filter(|(_, c)| *c == '-').map(|(i, _)| i).collect();
            assert_eq!(dashes, vec![8, 13, 18, 23]);
            let lower_hex = |c: char| c.is_ascii_digit() || ('a'..='f').contains(&c);
            assert!(token.chars().all(|c| c == '-' || lower_hex(c)));
            assert_eq!(submission.query_string, "SELECT 1");
        }
        other => panic!("unexpected stage {:?}", other),
    }
}

#[test]
fn two_queries_make_two_submissions() {
    let athena = settings();
    let first = athena.query("SELECT 1");
    let second = athena.query("SELECT 1");
    match (first, second) {
        (Stage::Submitting { submission: a }, Stage::Submitting { submission: b }) => {
            assert_ne!(a.client_request_token, b.client_request_token);
            assert_eq!(a.query_string, b.query_string);
            assert_eq!(a.output_location, b.output_location);
            assert_eq!(a.database, b.database);
            assert_eq!(a.work_group, b.work_group);
        }
        other => panic!("unexpected stages {:?}", other),
    }
}

#[test]
fn two_queries_give_two_results() {
    let athena = settings();
    let replies = |id: &str, value: &str| {
        vec![
            Reply::Started(Some(id.to_string())),
            Reply::Status(success(1, 2, 3)),
            Reply::Page(page(&["n"], vec![row(&["n"]), row(&[value])], None)),
        ]
    };
    let (first, _, _) = play(athena.query("SELECT n"), replies("q-1", "1"));
    let (second, _, _) = play(athena.query("SELECT n"), replies("q-2", "2"));
    match (first, second) {
        (Step::Done(Ok(a)), Step::Done(Ok(b))) => {
            assert_eq!(a.query_execution_id, "q-1");
            assert_eq!(a.data, vec![texts(&["1"])]);
            assert_eq!(b.query_execution_id, "q-2");
            assert_eq!(b.data, vec![texts(&["2"])]);
        }
        other => panic!("unexpected outcome {:?}", other),
    }
}

#[test]
fn submission_acknowledged_starts_polling_at_once() {
    let stage = settings().query("SELECT 1");
    let step = stage.advance(Reply::Started(Some("q-1".to_string())));
    assert_eq!(step, Step::Next(first_poll("q-1")));
}

#[test]
fn submission_without_execution_id_is_a_submission_error() {
    let stage = settings().query("SELECT 1");
    assert_eq!(stage.advance(Reply::Started(None)), Step::Done(Err(Error::SubmissionError)));
}

#[test]
fn submission_refused_is_a_submission_error() {
    let stage = settings().query("SELECT 1");
    assert_eq!(stage.advance(failed()), Step::Done(Err(Error::SubmissionError)));
}

#[test]
fn reply_of_the_wrong_kind_is_a_protocol_error() {
    let wrong = Step::Done(Err(Error::ProtocolError));
    assert_eq!(settings().query("SELECT 1").advance(Reply::Status(report("RUNNING"))), wrong);
    assert_eq!(
        settings().query("SELECT 1").advance(Reply::Page(page(&["n"], vec![], None))),
        wrong
    );
    assert_eq!(first_poll("q-1").advance(Reply::Started(Some("q-2".to_string()))), wrong);
    assert_eq!(first_poll("q-1").advance(Reply::Page(page(&["n"], vec![], None))), wrong);
    assert_eq!(first_page("q-1").advance(Reply::Started(None)), wrong);
    assert_eq!(first_page("q-1").advance(Reply::Status(success(1, 2, 3))), wrong);
}

#[test]
fn poll_sleeps_one_second_for_each_report_of_progress() {
    let replies = vec![
        Reply::Status(report("QUEUED")),
        Reply::Status(report("QUEUED")),
        Reply::Status(report("RUNNING")),
        Reply::Status(success(10, 20, 30)),
    ];
    let (step, pauses, _) = play(first_poll("q-1"), replies);
    assert_eq!(pauses, vec![1000, 1000, 1000]);
    assert_eq!(pauses.iter().sum::<u64>(), 1000 * 3);
    match step {
        Step::Next(Stage::Draining { result, next_token }) => {
            assert_eq!(next_token, None);
            assert_eq!(result.query_execution_id, "q-1");
            assert_eq!(result.data_scanned_bytes, 10);
            assert_eq!(result.query_queue_time_ms, 20);
            assert_eq!(result.total_execution_time_ms, 30);
            assert_eq!(result.rows, 0);
            assert!(result.data.is_empty());
            assert!(result.columns.is_empty());
        }
        other => panic!("unexpected step {:?}", other),
    }
}

#[test]
fn poll_adds_the_retry_delays_to_the_time_slept() {
    let replies = vec![
        Reply::Status(report("QUEUED")),
        failed(),
        Reply::Status(report("RUNNING")),
        failed(),
        Reply::Status(success(10, 20, 30)),
    ];
    let (step, pauses, _) = play(first_poll("q-1"), replies);
    assert_eq!(pauses, vec![1000, 250, 1000, 250]);
    assert_eq!(pauses.iter().sum::<u64>(), 1000 * 2 + 250 * 2);
    assert!(matches!(step, Step::Next(Stage::Draining { .. })));
}

#[test]
fn poll_succeeding_at_once_does_not_sleep() {
    let (step, pauses, _) = play(first_poll("q-1"), vec![Reply::Status(success(1, 2, 3))]);
    assert!(pauses.is_empty());
    assert!(matches!(step, Step::Next(Stage::Draining { .. })));
}

#[test]
fn poll_survives_up_to_five_failures() {
    for failures in 0..=5 {
        let mut replies: Vec<Reply> = (0..failures).map(|_| failed()).collect();
        replies.push(Reply::Status(success(1, 2, 3)));
        let (step, pauses, _) = play(first_poll("q-1"), replies);
        assert_eq!(pauses, vec![250; failures]);
        match step {
            Step::Next(Stage::Draining { result, .. }) => assert_eq!(result.data_scanned_bytes, 1),
            other => panic!("unexpected step after {} failures: {:?}", failures, other),
        }
    }
}

#[test]
fn poll_gives_up_on_the_sixth_failure() {
    let mut replies: Vec<Reply> = (0..6).map(|_| failed()).collect();
    replies.push(Reply::Status(success(1, 2, 3)));
    let (step, pauses, _) = play(first_poll("q-1"), replies);
    assert_eq!(step, Step::Done(Err(Error::PollError)));
    assert_eq!(pauses, vec![250; 5]);
}

#[test]
fn poll_counts_failures_over_the_whole_poll() {
    let mut replies = Vec::new();
    for _ in 0..5 {
        replies.push(failed());
        replies.push(Reply::Status(report("RUNNING")));
    }
    let (step, _, _) = play(first_poll("q-1"), replies);
    assert_eq!(
        step,
        Step::Next(Stage::Polling {
            query_execution_id: "q-1".to_string(),
            errors: 5,
            delay_ms: 1000
        })
    );
    match step {
        Step::Next(stage) => {
            assert_eq!(stage.advance(failed()), Step::Done(Err(Error::PollError)))
        }
        Step::Done(_) => unreachable!(),
    }
}

#[test]
fn poll_passes_the_failure_reason_on_unchanged() {
    let (step, _, _) = play(first_poll("q-1"), vec![Reply::Status(ended("FAILED", "X"))]);
    assert_eq!(step, Step::Done(Err(Error::QueryFailed("X".to_string()))));
    let reason = "SYNTAX_ERROR: line 1:8: Column 'nope' cannot be resolved \u{2014} fix it";
    let (step, _, _) = play(
        first_poll("q-1"),
        vec![Reply::Status(report("RUNNING")), failed(), Reply::Status(ended("FAILED", reason))],
    );
    assert_eq!(step, Step::Done(Err(Error::QueryFailed(reason.to_string()))));
}

#[test]
fn poll_reports_a_cancellation() {
    let (step, _, _) = play(first_poll("q-1"), vec![Reply::Status(ended("CANCELLED", "by user"))]);
    assert_eq!(step, Step::Done(Err(Error::QueryCancelled)));
}

#[test]
fn poll_refuses_success_without_statistics() {
    let mut partial = success(1, 2, 3);
    partial.query_queue_time_in_millis = None;
    for status in [report("SUCCEEDED"), partial] {
        let (step, _, _) = play(first_poll("q-1"), vec![Reply::Status(status)]);
        assert_eq!(step, Step::Done(Err(Error::ProtocolError)));
    }
}

#[test]
fn poll_refuses_an_unknown_or_missing_state() {
    let mut stateless = success(1, 2, 3);
    stateless.state = None;
    for status in [report("PAUSED"), report("succeeded"), report(""), stateless] {
        let (step, _, _) = play(first_poll("q-1"), vec![Reply::Status(status)]);
        assert_eq!(step, Step::Done(Err(Error::ProtocolError)));
    }
}

#[test]
fn poll_refuses_an_end_without_its_reason() {
    for state in ["FAILED", "CANCELLED"] {
        let (step, _, _) = play(first_poll("q-1"), vec![Reply::Status(report(state))]);
        assert_eq!(step, Step::Done(Err(Error::ProtocolError)));
    }
}

#[test]
fn drain_joins_two_pages_and_drops_the_header() {
    let header = row(&["id", "name"]);
    let row1 = row(&["1", "alice"]);
    let row2 = row(&["2", "bob"]);
    let row3 = row(&["3", "carol"]);
    let replies = vec![
        Reply::Page(page(&["id", "name"], vec![header, row1, row2], Some("T"))),
        Reply::Page(page(&["id", "name"], vec![row3], None)),
    ];
    let (step, _, passed) = play(first_page("q-1"), replies);
    match &passed[0] {
        Stage::Draining { next_token, .. } => assert_eq!(*next_token, Some("T".to_string())),
        other => panic!("unexpected stage {:?}", other),
    }
    match step {
        Step::Done(Ok(result)) => {
            assert_eq!(
                result.data,
                vec![texts(&["1", "alice"]), texts(&["2", "bob"]), texts(&["3", "carol"])]
            );
            assert!(!result.data.contains(&texts(&["id", "name"])));
            assert_eq!(result.columns, texts(&["id", "name"]));
            assert_eq!(result.rows, 3);
        }
        other => panic!("unexpected step {:?}", other),
    }
}

#[test]
fn drain_keeps_the_first_row_of_later_pages() {
    let replies = vec![
        Reply::Page(page(&["n"], vec![row(&["n"]), row(&["1"])], Some("T"))),
        Reply::Page(page(&["n"], vec![row(&["n"]), row(&["2"])], None)),
    ];
    let (step, _, _) = play(first_page("q-1"), replies);
    match step {
        Step::Done(Ok(result)) => {
            assert_eq!(result.data, vec![texts(&["1"]), texts(&["n"]), texts(&["2"])]);
        }
        other => panic!("unexpected step {:?}", other),
    }
}

#[test]
fn drain_takes_the_columns_from_the_first_page_only() {
    let replies = vec![
        Reply::Page(page(&["a", "b"], vec![row(&["a", "b"])], Some("T"))),
        Reply::Page(page(&["x", "y"], vec![row(&["1", "2"])], None)),
    ];
    let (step, _, _) = play(first_page("q-1"), replies);
    match step {
        Step::Done(Ok(result)) => {
            assert_eq!(result.columns, texts(&["a", "b"]));
            assert_eq!(result.data, vec![texts(&["1", "2"])]);
        }
        other => panic!("unexpected step {:?}", other),
    }
}

#[test]
fn drain_counts_rows_after_every_page() {
    let replies = vec![
        Reply::Page(page(&["n"], vec![row(&["n"]), row(&["1"]), row(&["2"])], Some("T1"))),
        Reply::Page(page(&["n"], vec![], Some("T2"))),
        Reply::Page(page(&["n"], vec![row(&["3"])], Some("T3"))),
        Reply::Page(page(&["n"], vec![row(&["4"]), row(&["5"])], None)),
    ];
    let (step, _, passed) = play(first_page("q-1"), replies);
    let mut counts = Vec::new();
    for stage in &passed {
        match stage {
            Stage::Draining { result, .. } => {
                assert_eq!(result.rows, result.data.len() as i64);
                counts.push(result.rows);
            }
            other => panic!("unexpected stage {:?}", other),
        }
    }
    assert_eq!(counts, vec![2, 2, 3]);
    match step {
        Step::Done(Ok(result)) => {
            assert_eq!(result.rows, 5);
            assert_eq!(result.rows, result.data.len() as i64);
        }
        other => panic!("unexpected step {:?}", other),
    }
}

#[test]
fn drain_of_an_empty_first_page_gives_no_rows() {
    let (step, _, _) = play(first_page("q-1"), vec![Reply::Page(page(&["n"], vec![], None))]);
    match step {
        Step::Done(Ok(result)) => {
            assert_eq!(result.rows, 0);
            assert!(result.data.is_empty());
            assert!(result.is_empty());
            assert_eq!(result.columns, texts(&["n"]));
        }
        other => panic!("unexpected step {:?}", other),
    }
}

#[test]
fn drain_reads_a_cell_without_value_as_empty_text() {
    let rows = vec![row(&["a", "b"]), Some(vec![Some("1".to_string()), None])];
    let (step, _, _) = play(first_page("q-1"), vec![Reply::Page(page(&["a", "b"], rows, None))]);
    match step {
        Step::Done(Ok(result)) => assert_eq!(result.data, vec![texts(&["1", ""])]),
        other => panic!("unexpected step {:?}", other),
    }
}

#[test]
fn drain_refuses_a_malformed_page() {
    let whole = page(&["n"], vec![row(&["n"]), row(&["1"])], None);
    let without_metadata = ResultPage { columns: None, ..whole.clone() };
    let without_rows = ResultPage { rows: None, ..whole.clone() };
    let without_cells = ResultPage { rows: Some(vec![row(&["n"]), None]), ..whole.clone() };
    for broken in [without_metadata, without_rows, without_cells] {
        assert!(!broken.is_well_formed());
        let (step, _, _) = play(first_page("q-1"), vec![Reply::Page(broken.clone())]);
        assert_eq!(step, Step::Done(Err(Error::ProtocolError)));
        let replies = vec![
            Reply::Page(page(&["n"], vec![row(&["n"]), row(&["1"])], Some("T"))),
            Reply::Page(broken),
        ];
        let (step, _, _) = play(first_page("q-1"), replies);
        assert_eq!(step, Step::Done(Err(Error::ProtocolError)));
    }
    assert!(whole.is_well_formed());
}

#[test]
fn drain_reports_a_failed_request_with_its_text() {
    let (step, _, _) = play(first_page("q-1"), vec![failed()]);
    assert_eq!(
        step,
        Step::Done(Err(Error::GetQueryResultsError("connection reset".to_string())))
    );
}

#[test]
fn every_request_is_about_the_execution_submitted() {
    let replies = vec![
        Reply::Started(Some("q-1".to_string())),
        Reply::Status(report("QUEUED")),
        failed(),
        Reply::Status(success(1, 2, 3)),
        Reply::Page(page(&["n"], vec![row(&["n"])], Some("T"))),
        Reply::Page(page(&["n"], vec![row(&["1"])], None)),
    ];
    let (step, _, passed) = play(settings().query("SELECT n"), replies);
    assert_eq!(passed.len(), 5);
    for stage in passed {
        match stage {
            Stage::Polling { query_execution_id, .. } => assert_eq!(query_execution_id, "q-1"),
            Stage::Draining { result, .. } => assert_eq!(result.query_execution_id, "q-1"),
            other => panic!("unexpected stage {:?}", other),
        }
    }
    match step {
        Step::Done(Ok(result)) => assert_eq!(result.query_execution_id, "q-1"),
        other => panic!("unexpected step {:?}", other),
    }
}

#[test]
fn end_to_end() {
    let replies = vec![
        Reply::Started(Some("q-1".to_string())),
        Reply::Status(report("QUEUED")),
        Reply::Status(report("RUNNING")),
        Reply::Status(success(1024, 50, 900)),
        Reply::Page(page(
            &["id", "name"],
            vec![row(&["id", "name"]), row(&["1", "alice"]), row(&["2", "bob"])],
            None,
        )),
    ];
    let (step, pauses, _) = play(settings().query("SELECT id, name FROM people"), replies);
    assert_eq!(pauses, vec![0, 1000, 1000]);
    assert_eq!(
        step,
        Step::Done(Ok(QueryResult {
            query_execution_id: "q-1".to_string(),
            data: vec![texts(&["1", "alice"]), texts(&["2", "bob"])],
            data_scanned_bytes: 1024,
            query_queue_time_ms: 50,
            rows: 2,
            columns: texts(&["id", "name"]),
            total_execution_time_ms: 900,
        }))
    );
}

#[test]
fn room_is_missing_only_when_the_counter_would_overflow() {
    let full = |rows: i64| Stage::Draining {
        result: QueryResult {
            query_execution_id: "q-1".to_string(),
            data: vec![],
            data_scanned_bytes: 0,
            query_queue_time_ms: 0,
            rows,
            columns: vec![],
            total_execution_time_ms: 0,
        },
        next_token: Some("T".to_string()),
    };
    let one_row = Reply::Page(page(&["n"], vec![row(&["1"])], None));
    assert!(full(i64::MAX - 1).has_room_for(&one_row));
    assert!(!full(i64::MAX).has_room_for(&one_row));
    assert!(full(i64::MAX).has_room_for(&Reply::Page(page(&["n"], vec![], None))));
    assert!(full(i64::MAX).has_room_for(&failed()));
    let first = first_page_holding(i64::MAX);
    assert!(first.has_room_for(&one_row));
    assert_eq!(full(i64::MAX).try_advance(one_row.clone()), None);
    match full(i64::MAX - 1).try_advance(one_row) {
        Some(Step::Done(Ok(result))) => assert_eq!(result.rows, i64::MAX),
        other => panic!("unexpected step {:?}", other),
    }
    assert_eq!(
        first_poll("q-1").try_advance(failed()),
        Some(Step::Next(Stage::Polling {
            query_execution_id: "q-1".to_string(),
            errors: 1,
            delay_ms: 250
        }))
    );
}

fn first_page_holding(rows: i64) -> Stage {
    Stage::Draining {
        result: QueryResult {
            query_execution_id: "q-1".to_string(),
            data: vec![],
            data_scanned_bytes: 0,
            query_queue_time_ms: 0,
            rows,
            columns: vec![],
            total_execution_time_ms: 0,
        },
        next_token: None,
    }
}
