use sql_validator::context::{context_from_tokens, detect, significant_tokens, token_is, SqlContext, SqlToken};

fn word(s: &str) -> SqlToken {
    SqlToken::Word { value: s.to_string(), quote: None }
}

#[test]
fn engine_after_equals() {
    assert_eq!(detect("CREATE TABLE t ENGINE = ", 24), SqlContext::Engine);
    assert_eq!(detect("ENGINE = M", 10), SqlContext::Engine);
}

#[test]
fn engine_before_equals_typed() {
    assert_eq!(detect("CREATE TABLE t ENGINE  = MergeTree", 21), SqlContext::Engine);
    assert_eq!(detect("CREATE TABLE t ENGINE", 21), SqlContext::Default);
}

#[test]
fn where_and_having() {
    assert_eq!(detect("SELECT * FROM t WHERE ", 22), SqlContext::WhereClause);
    assert_eq!(detect("SELECT * FROM t GROUP BY x HAVING ", 34), SqlContext::WhereClause);
    assert_eq!(detect("SELECT * FROM t WHERE x = 1 AND ", 32), SqlContext::WhereClause);
}

#[test]
fn order_and_group_by() {
    assert_eq!(detect("SELECT * FROM t ORDER BY ", 25), SqlContext::OrderByClause);
    assert_eq!(detect("SELECT * FROM t GROUP BY ", 25), SqlContext::OrderByClause);
}

#[test]
fn column_definition() {
    assert_eq!(detect("CREATE TABLE t (id UInt64, name ", 32), SqlContext::ColumnDefinition);
}

#[test]
fn closed_column_list_is_not_column_definition() {
    assert_eq!(detect("CREATE TABLE t (id UInt64) ", 27), SqlContext::Default);
}

#[test]
fn default_context() {
    assert_eq!(detect("SEL", 3), SqlContext::Default);
    assert_eq!(detect("", 0), SqlContext::Default);
}

#[test]
fn select_from_format_settings() {
    assert_eq!(detect("SELECT ", 7), SqlContext::SelectClause);
    assert_eq!(detect("SELECT a FROM ", 14), SqlContext::FromClause);
    assert_eq!(detect("SELECT a FROM t JOIN ", 21), SqlContext::FromClause);
    assert_eq!(detect("SELECT 1 FORMAT ", 16), SqlContext::Format);
    assert_eq!(detect("SELECT 1 SETTINGS ", 18), SqlContext::Settings);
}

#[test]
fn keywords_ignore_case() {
    assert_eq!(detect("select * from t where ", 22), SqlContext::WhereClause);
}

#[test]
fn offset_past_end_is_end() {
    assert_eq!(detect("SELECT * FROM t WHERE ", 1000), SqlContext::WhereClause);
    assert_eq!(detect("SEL", 99), SqlContext::Default);
}

#[test]
fn offset_truncates_text() {
    assert_eq!(detect("SELECT * FROM t WHERE ", 7), SqlContext::SelectClause);
}

#[test]
fn detect_is_repeatable() {
    let a = detect("SELECT * FROM t ORDER BY ", 25);
    let b = detect("SELECT * FROM t ORDER BY ", 25);
    assert_eq!(a, b);
}

#[test]
fn tokenizer_failure_is_default() {
    assert_eq!(detect("SELECT 'unterminated", 20), SqlContext::Default);
}

#[test]
fn tokens_classified_directly() {
    let tokens = vec![word("SELECT"), SqlToken::Space, SqlToken::Other, SqlToken::Space, word("FROM"), SqlToken::Space];
    assert_eq!(context_from_tokens(&tokens, &vec![]), SqlContext::FromClause);
    let tokens = vec![word("engine"), SqlToken::Space];
    assert_eq!(context_from_tokens(&tokens, &vec![' ', '=', ' ']), SqlContext::Engine);
    assert_eq!(context_from_tokens(&tokens, &vec![' ', 'x']), SqlContext::Default);
    let quoted = vec![SqlToken::Word { value: "WHERE".to_string(), quote: Some('"') }];
    assert_eq!(context_from_tokens(&quoted, &vec![]), SqlContext::Default);
    assert_eq!(context_from_tokens(&vec![], &vec![]), SqlContext::Default);
}

#[test]
fn guard_after_where() {
    let tokens = vec![word("WHERE"), word("x"), word("LIMIT")];
    assert_eq!(context_from_tokens(&tokens, &vec![]), SqlContext::Default);
}

#[test]
fn significant_drops_spaces() {
    let tokens = vec![SqlToken::Space, SqlToken::Eq, SqlToken::Space, SqlToken::LParen];
    let s = significant_tokens(&tokens);
    assert_eq!(s.len(), 2);
    assert!(matches!(s[0], SqlToken::Eq));
    assert!(matches!(s[1], SqlToken::LParen));
}

#[test]
fn token_keyword_match() {
    assert!(token_is(&word("oRdEr"), "ORDER"));
    assert!(!token_is(&word("ORDERS"), "ORDER"));
    assert!(!token_is(&SqlToken::Eq, "ORDER"));
}

#[test]
fn engine_with_unicode_space_before_equals() {
    assert_eq!(detect("ENGINE\u{a0}= x", 6), SqlContext::Engine);
}
