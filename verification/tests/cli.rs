use athenacli::cli::{
    choose_input, default_directive, log_level, statements, statements_from, Input, UsageError,
};
use athenacli::error::Error;

#[test]
fn log_level_follows_the_flags() {
    assert_eq!(log_level(0), "info");
    assert_eq!(log_level(1), "debug");
    assert_eq!(log_level(2), "trace");
    assert_eq!(log_level(u64::MAX), "trace");
}

#[test]
fn default_directive_names_the_program() {
    assert_eq!(default_directive(0), "athenacli=info");
    assert_eq!(default_directive(1), "athenacli=debug");
    assert_eq!(default_directive(7), "athenacli=trace");
}

#[test]
fn input_is_exactly_one_of_the_two() {
    let commands = vec!["SELECT 1".to_string(), "SELECT 2".to_string()];
    assert_eq!(
        choose_input(Some(commands.clone()), Some("q.sql")),
        Err(UsageError::BothCommandAndFile)
    );
    assert_eq!(choose_input::<&str>(None, None), Err(UsageError::NeitherCommandNorFile));
    assert_eq!(choose_input(None, Some("q.sql")), Ok(Input::File("q.sql")));
    assert_eq!(choose_input::<&str>(Some(commands.clone()), None), Ok(Input::Commands(commands)));
}

#[test]
fn usage_errors_say_what_is_wrong() {
    assert_eq!(
        UsageError::BothCommandAndFile.message(),
        "cannot specify both --command and --file!"
    );
    assert_eq!(
        UsageError::NeitherCommandNorFile.message(),
        "must specify either --command or --file!"
    );
}

#[test]
fn statements_are_split_and_printed_back() {
    assert_eq!(
        statements("select a from t; SELECT b FROM u WHERE c = 1;"),
        Ok(vec!["SELECT a FROM t".to_string(), "SELECT b FROM u WHERE c = 1".to_string()])
    );
    assert_eq!(statements(""), Ok(vec![]));
    assert_eq!(statements(";;"), Ok(vec![]));
}

#[test]
fn invalid_sql_is_reported_with_the_parser_complaint() {
    match statements("SELECT FROM WHERE") {
        Err(Error::InvalidSql(complaint)) => assert!(complaint.starts_with("sql parser error: ")),
        other => panic!("unexpected outcome {:?}", other),
    }
    match statements("SELECT 'unterminated") {
        Err(Error::InvalidSql(complaint)) => assert!(complaint.starts_with("sql parser error: ")),
        other => panic!("unexpected outcome {:?}", other),
    }
}

#[test]
fn parser_complaint_becomes_invalid_sql() {
    assert_eq!(
        statements_from(Err("sql parser error: oops".to_string())),
        Err(Error::InvalidSql("sql parser error: oops".to_string()))
    );
    assert_eq!(statements_from(Ok(vec!["SELECT 1".to_string()])), Ok(vec!["SELECT 1".to_string()]));
}
