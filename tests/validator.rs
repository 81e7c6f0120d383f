use sql_validator::validate::{
    format_outcome, format_sql, join_statements, parse_error_position, parse_u32_chars, trim_chars,
    validate_sql, validation_outcome,
};

#[test]
fn test_valid_select() {
    let sql = "SELECT * FROM users WHERE id = 1";
    let parsed = validate_sql(sql);
    assert!(parsed.valid);
}

#[test]
fn test_invalid_sql() {
    let sql = "SELCT * FROM users";
    let parsed = validate_sql(sql);
    assert!(!parsed.valid);
    assert!(parsed.error.is_some());
}

#[test]
fn test_clickhouse_materialized_view() {
    let sql = "CREATE MATERIALIZED VIEW mv AS SELECT * FROM source";
    let parsed = validate_sql(sql);
    if !parsed.valid {
        let message = parsed.error.as_ref().map(|e| e.message.clone());
        println!("Error: {:?}", message);
    }
    assert!(parsed.valid);
}

#[test]
fn test_format_simple_select() {
    let sql = "select * from users where id=1";
    let parsed = format_sql(sql);
    assert!(parsed.success, "Format should succeed: {:?}", parsed.error);
    assert!(parsed.formatted.is_some());
    let formatted = parsed.formatted.expect("formatted should be Some");
    assert!(formatted.contains("SELECT"), "Should uppercase SELECT: {formatted}");
    assert!(formatted.contains("FROM"), "Should uppercase FROM: {formatted}");
}

#[test]
fn test_format_invalid_sql_returns_error() {
    let sql = "SELCT * FROM users";
    let parsed = format_sql(sql);
    assert!(!parsed.success);
    assert!(parsed.error.is_some());
}

#[test]
fn test_format_preserves_identifiers() {
    let sql = "SELECT _ph_1, _ph_2 FROM _ph_3 WHERE id = _ph_4";
    let parsed = format_sql(sql);
    assert!(parsed.success);
    let formatted = parsed.formatted.expect("formatted should be Some");
    assert!(formatted.contains("_ph_1"), "Should preserve _ph_1");
    assert!(formatted.contains("_ph_2"), "Should preserve _ph_2");
    assert!(formatted.contains("_ph_3"), "Should preserve _ph_3");
    assert!(formatted.contains("_ph_4"), "Should preserve _ph_4");
}

#[test]
fn invalid_sql_error_names_line_and_column() {
    let parsed = validate_sql("SELCT * FROM users");
    let error = parsed.error.expect("an error");
    assert!(error.message.starts_with("sql parser error: "));
    assert_eq!(error.line, Some(1));
    assert_eq!(error.column, Some(1));
}

#[test]
fn valid_sql_has_no_error() {
    let parsed = validate_sql("SELECT 1");
    assert!(parsed.valid);
    assert!(parsed.error.is_none());
}

#[test]
fn format_without_statements_is_an_error() {
    let parsed = format_sql("");
    assert!(!parsed.success);
    assert!(parsed.formatted.is_none());
    assert_eq!(parsed.error, Some("No SQL statements found".to_string()));
}

#[test]
fn format_joins_several_statements() {
    let parsed = format_sql("select 1; select 2");
    assert!(parsed.success);
    assert!(parsed.error.is_none());
    let formatted = parsed.formatted.expect("formatted");
    assert!(formatted.contains(";\n"));
    assert!(formatted.starts_with("SELECT"));
}

#[test]
fn format_reports_parser_message() {
    let parsed = format_sql("SELCT * FROM users");
    assert!(parsed.formatted.is_none());
    assert!(parsed.error.expect("error").starts_with("sql parser error: "));
}

#[test]
fn error_position_read_from_message() {
    let m = "sql parser error: Expected: an expression, found: EOF at Line: 3, Column: 17";
    assert_eq!(parse_error_position(m), (Some(3), Some(17)));
}

#[test]
fn error_position_absent() {
    assert_eq!(parse_error_position("sql parser error: recursion limit exceeded"), (None, None));
}

#[test]
fn error_position_line_without_comma() {
    assert_eq!(parse_error_position("at Line: 12"), (Some(12), None));
}

#[test]
fn error_position_column_stops_at_non_digit() {
    assert_eq!(parse_error_position("Line: x, Column: 42abc"), (None, Some(42)));
}

#[test]
fn error_position_out_of_range() {
    assert_eq!(
        parse_error_position("Line: 4294967296, Column: 4294967295"),
        (None, Some(4294967295))
    );
}

#[test]
fn u32_parse_cases() {
    let chars = |s: &str| s.chars().collect::<Vec<char>>();
    assert_eq!(parse_u32_chars(&chars("0")), Some(0));
    assert_eq!(parse_u32_chars(&chars("+7")), Some(7));
    assert_eq!(parse_u32_chars(&chars("+")), None);
    assert_eq!(parse_u32_chars(&chars("")), None);
    assert_eq!(parse_u32_chars(&chars("-1")), None);
    assert_eq!(parse_u32_chars(&chars("12a")), None);
    assert_eq!(parse_u32_chars(&chars("99999999999999999999")), None);
}

#[test]
fn trim_removes_outer_spaces() {
    let v: Vec<char> = "  a b \t".chars().collect();
    let t: String = trim_chars(&v).into_iter().collect();
    assert_eq!(t, "a b");
}

#[test]
fn join_statements_separator() {
    let parts = vec!["A".to_string(), "B".to_string(), "C".to_string()];
    assert_eq!(join_statements(&parts), "A;\nB;\nC");
    assert_eq!(join_statements(&vec!["X".to_string()]), "X");
    assert_eq!(join_statements(&vec![]), "");
}

#[test]
fn validation_outcome_cases() {
    let ok = validation_outcome(None);
    assert!(ok.valid);
    assert!(ok.error.is_none());
    let bad = validation_outcome(Some("boom at Line: 2, Column: 9".to_string()));
    assert!(!bad.valid);
    let e = bad.error.expect("error");
    assert_eq!(e.message, "boom at Line: 2, Column: 9");
    assert_eq!(e.line, Some(2));
    assert_eq!(e.column, Some(9));
}

#[test]
fn format_outcome_cases() {
    let empty = format_outcome(Ok(vec![]));
    assert!(!empty.success);
    assert_eq!(empty.error.as_deref(), Some("No SQL statements found"));
    let two = format_outcome(Ok(vec!["SELECT 1".to_string(), "SELECT 2".to_string()]));
    assert!(two.success);
    assert_eq!(two.formatted.as_deref(), Some("SELECT 1;\nSELECT 2"));
    assert!(two.error.is_none());
    let failed = format_outcome(Err("bad".to_string()));
    assert!(!failed.success);
    assert!(failed.formatted.is_none());
    assert_eq!(failed.error.as_deref(), Some("bad"));
}

#[test]
fn error_position_trims_unicode_whitespace() {
    assert_eq!(parse_error_position("Line: \u{a0}7\u{3000}, Column: 2"), (Some(7), Some(2)));
    let v: Vec<char> = "\u{2003}x\u{85}".chars().collect();
    let t: String = trim_chars(&v).into_iter().collect();
    assert_eq!(t, "x");
}

#[test]
fn format_keeps_statement_order() {
    let parsed = format_sql("select a from t; select b from u");
    let formatted = parsed.formatted.expect("formatted");
    let first = formatted.find("a").expect("a");
    let second = formatted.find(";\n").expect("separator");
    assert!(first < second);
    assert!(formatted[second..].contains("u"));
}
