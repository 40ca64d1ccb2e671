use athenacli::athena::{QueryResult, Statistics};

fn result(scanned: i64, total: i64) -> QueryResult {
    QueryResult::seeded(
        "q-1".to_string(),
        Statistics {
            data_scanned_bytes: scanned,
            query_queue_time_ms: 0,
            total_execution_time_ms: total,
        },
    )
}

fn texts(cells: &[&str]) -> Vec<String> {
    cells.iter().map(|cell| cell.to_string()).collect()
}

#[test]
fn seeded_result_is_empty() {
    let seeded = QueryResult::seeded(
        "q-9".to_string(),
        Statistics { data_scanned_bytes: 7, query_queue_time_ms: 8, total_execution_time_ms: 9 },
    );
    assert_eq!(
        seeded,
        QueryResult {
            query_execution_id: "q-9".to_string(),
            data: vec![],
            data_scanned_bytes: 7,
            query_queue_time_ms: 8,
            rows: 0,
            columns: vec![],
            total_execution_time_ms: 9,
        }
    );
    assert!(seeded.is_empty());
}

#[test]
fn append_row_adds_at_the_end_and_counts() {
    let mut result = result(0, 0);
    result.append_row(texts(&["1", "alice"]));
    assert_eq!(result.rows, 1);
    assert_eq!(result.data, vec![texts(&["1", "alice"])]);
    result.append_row(texts(&["2", "bob"]));
    result.append_row(vec![]);
    assert_eq!(result.rows, 3);
    assert_eq!(result.data, vec![texts(&["1", "alice"]), texts(&["2", "bob"]), vec![]]);
    assert_eq!(result.rows, result.data.len() as i64);
    assert!(!result.is_empty());
    assert_eq!(result.query_execution_id, "q-1");
    assert!(result.columns.is_empty());
}

#[test]
fn data_scanned_picks_the_decimal_unit() {
    assert_eq!(result(0, 0).data_scanned(), "0 B");
    assert_eq!(result(999, 0).data_scanned(), "999 B");
    assert_eq!(result(1000, 0).data_scanned(), "1000 B");
    assert_eq!(result(1024, 0).data_scanned(), "1.02 KB");
    assert_eq!(result(1_500_000, 0).data_scanned(), "1.50 MB");
    assert_eq!(result(123_456_789_012, 0).data_scanned(), "123.46 GB");
}

#[test]
fn total_time_is_spelled_out() {
    assert_eq!(result(0, 0).total_time(), "0s");
    assert_eq!(result(0, 900).total_time(), "900ms");
    assert_eq!(result(0, 1_500).total_time(), "1s 500ms");
    assert_eq!(result(0, 9_420_000).total_time(), "2h 37m");
    assert_eq!(result(0, 86_400_000 * 2 + 61_001).total_time(), "2days 1m 1s 1ms");
}

#[test]
fn negative_statistics_are_read_as_unsigned() {
    assert_eq!(result(0, -1).total_time(), result(0, -1).total_time());
    assert_ne!(result(0, -1).total_time(), result(0, 1).total_time());
    assert_ne!(result(-1, 0).data_scanned(), result(1, 0).data_scanned());
    assert!(result(-1, 0).data_scanned().ends_with(" ZB"));
}
