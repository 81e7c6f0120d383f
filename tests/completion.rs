use sql_validator::cache::{build, dispatch, CompletionStore, InitError};
use sql_validator::catalog::{
    Catalog, DataTypeRecord, FormatRecord, FunctionRecord, SettingRecord, TableEngineRecord,
    TableFunctionRecord,
};
use sql_validator::completion::{CompletionItem, CompletionKind};
use sql_validator::context::SqlContext;

fn s(v: &str) -> String {
    v.to_string()
}

fn function(name: &str, aggregate: bool, alias: Option<&str>, description: &str) -> FunctionRecord {
    FunctionRecord {
        name: s(name),
        is_aggregate: aggregate,
        alias_to: alias.map(s),
        syntax: String::new(),
        description: s(description),
        arguments: String::new(),
        returned_value: String::new(),
        categories: String::new(),
    }
}

fn catalog() -> Catalog {
    Catalog {
        functions: vec![
            FunctionRecord {
                name: s("count"),
                is_aggregate: true,
                alias_to: None,
                syntax: s("count(x)"),
                description: s("Counts rows."),
                arguments: String::new(),
                returned_value: s("UInt64"),
                categories: String::new(),
            },
            function("lower", false, None, "Lower case."),
            function("lcase", false, Some("LOWER"), ""),
            function("missing_alias", false, Some("nowhere"), ""),
        ],
        keywords: vec![s("SELECT"), s("FROM")],
        data_types: vec![
            DataTypeRecord { name: s("UInt64"), alias_to: None },
            DataTypeRecord { name: s("BIGINT"), alias_to: Some(s("Int64")) },
        ],
        table_engines: vec![TableEngineRecord { name: s("MergeTree") }],
        formats: vec![
            FormatRecord { name: s("CSV"), is_input: true, is_output: true },
            FormatRecord { name: s("Null"), is_input: false, is_output: true },
            FormatRecord { name: s("Input"), is_input: true, is_output: false },
            FormatRecord { name: s("None"), is_input: false, is_output: false },
        ],
        table_functions: vec![
            TableFunctionRecord { name: s("numbers"), description: s("Numbers.") },
            TableFunctionRecord { name: s("null"), description: String::new() },
        ],
        settings: vec![SettingRecord {
            name: s("max_threads"),
            value_type: s("UInt64"),
            description: s("Threads."),
        }],
        merge_tree_settings: vec![SettingRecord {
            name: s("index_granularity"),
            value_type: s("UInt64"),
            description: String::new(),
        }],
        aggregate_combinators: vec![s("If")],
    }
}

fn labels(items: &[CompletionItem]) -> Vec<String> {
    items.iter().map(|i| i.label.clone()).collect()
}

#[test]
fn function_items() {
    let c = build(&catalog());
    let count = &c.functions[0];
    assert_eq!(count.kind, CompletionKind::AggregateFunction);
    assert_eq!(count.detail.as_deref(), Some("(aggregate function)"));
    assert_eq!(count.documentation.as_deref(), Some("count(x)\n\nCounts rows.\n\nUInt64"));
    assert!(count.has_params);
    assert_eq!(count.sort_key, "1_count");
    let lower = &c.functions[1];
    assert_eq!(lower.kind, CompletionKind::Function);
    assert_eq!(lower.detail.as_deref(), Some("(function)"));
    assert_eq!(lower.documentation.as_deref(), Some("Lower case."));
}

#[test]
fn alias_documentation_appends_target() {
    let c = build(&catalog());
    let lcase = &c.functions[2];
    assert_eq!(lcase.kind, CompletionKind::Function);
    assert_eq!(lcase.detail.as_deref(), Some("(alias for LOWER)"));
    assert_eq!(lcase.sort_key, "9_lcase");
    assert!(lcase.has_params);
    let doc = lcase.documentation.clone().expect("documentation");
    assert!(doc.contains("alias for"));
    assert_eq!(doc, "**lcase** _(alias for `LOWER`)_\n\nLower case.");
}

#[test]
fn alias_without_target_keeps_header() {
    let c = build(&catalog());
    let item = &c.functions[3];
    assert_eq!(item.documentation.as_deref(), Some("**missing_alias** _(alias for `nowhere`)_"));
}

#[test]
fn function_without_documentation() {
    let mut cat = catalog();
    cat.functions = vec![function("now", false, None, "")];
    let c = build(&cat);
    assert!(c.functions[0].documentation.is_none());
}

#[test]
fn other_category_items() {
    let c = build(&catalog());
    assert_eq!(c.keywords[0].sort_key, "0_SELECT");
    assert_eq!(c.keywords[0].detail.as_deref(), Some("(keyword)"));
    assert_eq!(c.keywords[0].kind, CompletionKind::Keyword);
    assert!(!c.keywords[0].has_params);
    assert_eq!(c.data_types[0].detail.as_deref(), Some("(data type)"));
    assert_eq!(c.data_types[0].sort_key, "2_UInt64");
    assert_eq!(c.data_types[1].detail.as_deref(), Some("(alias for Int64)"));
    assert_eq!(c.data_types[1].sort_key, "9_BIGINT");
    assert_eq!(c.table_engines[0].detail.as_deref(), Some("(table engine)"));
    assert_eq!(c.table_engines[0].sort_key, "3_MergeTree");
    assert_eq!(c.table_functions[0].detail.as_deref(), Some("(table function)"));
    assert_eq!(c.table_functions[0].documentation.as_deref(), Some("Numbers."));
    assert!(c.table_functions[0].has_params);
    assert!(c.table_functions[1].documentation.is_none());
    assert_eq!(c.table_functions[0].sort_key, "5_numbers");
}

#[test]
fn format_details() {
    let c = build(&catalog());
    let details: Vec<Option<String>> = c.formats.iter().map(|f| f.detail.clone()).collect();
    assert_eq!(
        details,
        vec![
            Some(s("(format: input/output)")),
            Some(s("(format: output only)")),
            Some(s("(format: input only)")),
            Some(s("(format)")),
        ]
    );
    assert_eq!(c.formats[0].sort_key, "4_CSV");
}

#[test]
fn setting_details() {
    let c = build(&catalog());
    assert_eq!(labels(&c.settings), vec![s("max_threads"), s("index_granularity")]);
    assert_eq!(c.settings[0].detail.as_deref(), Some("(setting: UInt64)"));
    assert_eq!(c.settings[0].documentation.as_deref(), Some("Threads."));
    assert_eq!(c.settings[1].detail.as_deref(), Some("(MergeTree setting: UInt64)"));
    assert!(c.settings[1].documentation.is_none());
    assert_eq!(c.settings[1].sort_key, "6_index_granularity");
}

#[test]
fn all_is_concatenation_in_build_order() {
    let c = build(&catalog());
    assert_eq!(
        labels(&c.all),
        vec![
            s("count"), s("lower"), s("lcase"), s("missing_alias"),
            s("SELECT"), s("FROM"),
            s("UInt64"), s("BIGINT"),
            s("MergeTree"),
            s("CSV"), s("Null"), s("Input"), s("None"),
            s("numbers"), s("null"),
            s("max_threads"), s("index_granularity"),
        ]
    );
}

#[test]
fn keyword_sort_key_before_setting() {
    let c = build(&catalog());
    for k in c.all.iter().filter(|i| i.kind == CompletionKind::Keyword) {
        for st in c.all.iter().filter(|i| i.kind == CompletionKind::Setting) {
            assert!(k.sort_key < st.sort_key);
        }
    }
    assert!(c.keywords[0].sort_key < c.settings[0].sort_key);
}

#[test]
fn dispatch_table() {
    let c = build(&catalog());
    assert_eq!(labels(&dispatch(SqlContext::Engine, &c)), vec![s("MergeTree")]);
    assert_eq!(dispatch(SqlContext::Format, &c).len(), 4);
    assert_eq!(
        labels(&dispatch(SqlContext::WhereClause, &c)),
        vec![
            s("count"), s("lower"), s("lcase"), s("missing_alias"),
            s("AND"), s("OR"), s("NOT"), s("IN"), s("BETWEEN"), s("LIKE"), s("IS NULL"), s("IS NOT NULL"),
        ]
    );
    assert_eq!(
        labels(&dispatch(SqlContext::OrderByClause, &c)),
        vec![
            s("count"), s("lower"), s("lcase"), s("missing_alias"),
            s("ASC"), s("DESC"), s("NULLS FIRST"), s("NULLS LAST"),
        ]
    );
    assert_eq!(dispatch(SqlContext::SelectClause, &c).len(), 4);
    assert_eq!(labels(&dispatch(SqlContext::FromClause, &c)), vec![s("numbers"), s("null")]);
    assert_eq!(labels(&dispatch(SqlContext::ColumnDefinition, &c)), vec![s("UInt64"), s("BIGINT")]);
    assert_eq!(dispatch(SqlContext::Settings, &c).len(), 2);
    assert_eq!(dispatch(SqlContext::Default, &c).len(), 17);
}

#[test]
fn operator_items_are_keywords() {
    let c = build(&catalog());
    assert_eq!(c.logical_operators[6].sort_key, "0_IS NULL");
    assert_eq!(c.logical_operators[6].kind, CompletionKind::Keyword);
    assert_eq!(c.order_by_keywords[3].label, "NULLS LAST");
}

#[test]
fn store_is_write_once() {
    let mut store = CompletionStore::new();
    assert!(!store.is_initialized());
    assert!(store.completions("SELECT ", 7).is_empty());
    assert_eq!(store.init(&catalog()), Ok(()));
    let first = labels(&store.completions("", 0));
    let mut other = catalog();
    other.keywords = vec![s("ONLY")];
    assert_eq!(store.init(&other), Err(InitError::AlreadyInitialized));
    assert_eq!(store.init(&catalog()), Err(InitError::AlreadyInitialized));
    assert_eq!(labels(&store.completions("", 0)), first);
    assert!(store.is_initialized());
}

#[test]
fn store_completions_follow_context() {
    let mut store = CompletionStore::new();
    store.init(&catalog()).expect("first build");
    assert_eq!(labels(&store.completions("CREATE TABLE t ENGINE = ", 24)), vec![s("MergeTree")]);
    assert_eq!(
        labels(&store.completions("CREATE TABLE t (id ", 19)),
        vec![s("UInt64"), s("BIGINT")]
    );
    assert_eq!(store.completions("SEL", 3).len(), 17);
}
