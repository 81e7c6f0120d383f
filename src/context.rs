use vstd::prelude::*;

use crate::text::{chars_between, chars_eq_ignore_case, chars_of, eq_ignore_case, is_space, is_space_char};
use sqlparser::dialect::ClickHouseDialect;
use sqlparser::tokenizer::{Token, Tokenizer};

verus! {

/// The syntactic region that the cursor is in, as far as the tokens before it tell.
#[derive(Clone, Copy, Debug, PartialEq, Eq, Structural)]
pub enum SqlContext {
    Engine,
    Format,
    WhereClause,
    OrderByClause,
    SelectClause,
    FromClause,
    ColumnDefinition,
    Settings,
    Default,
}

/// A token of SQL text, reduced to what the context rules look at.
pub enum SqlToken {
    /// A keyword or an identifier, with the quote character of a delimited identifier.
    Word { value: String, quote: Option<char> },
    /// `=`
    Eq,
    /// `(`
    LParen,
    /// `)`
    RParen,
    /// Spaces, line breaks and comments.
    Space,
    /// Any other token (literals, operators, punctuation).
    Other,
}

/// The mathematical value of a token.
pub enum Lexeme {
    Word { value: Seq<char>, quote: Option<char> },
    Eq,
    LParen,
    RParen,
    Space,
    Other,
}

impl View for SqlToken {
    type V = Lexeme;

    open spec fn view(&self) -> Lexeme {
        match self {
            SqlToken::Word { value, quote } => Lexeme::Word { value: value@, quote: *quote },
            SqlToken::Eq => Lexeme::Eq,
            SqlToken::LParen => Lexeme::LParen,
            SqlToken::RParen => Lexeme::RParen,
            SqlToken::Space => Lexeme::Space,
            SqlToken::Other => Lexeme::Other,
        }
    }
}

/// The values of a sequence of tokens.
pub open spec fn lexemes(ts: Seq<SqlToken>) -> Seq<Lexeme> {
    ts.map_values(|t: SqlToken| t@)
}

/// What the ClickHouse-dialect tokenizer makes of a text: `None` where it fails.
pub uninterp spec fn lexed(text: Seq<char>) -> Option<Seq<Lexeme>>;

/// Relies on sqlparser's `Tokenizer::tokenize` (ClickHouse dialect): its result
/// depends on the text alone. Each token is converted to a `SqlToken`.
#[verifier::external_body]
fn tokenize(text: &Vec<char>) -> (r: Option<Vec<SqlToken>>)
    ensures
        r is None <==> lexed(text@) is None,
        r is Some ==> lexed(text@) == Some(lexemes(r->0@)),
{
    let s: String = text.iter().collect();
    let dialect = ClickHouseDialect {};
    let tokens = Tokenizer::new(&dialect, &s).tokenize().ok()?;
    Some(tokens.into_iter().map(|t| match t {
        Token::Word(w) => SqlToken::Word { value: w.value, quote: w.quote_style },
        Token::Eq => SqlToken::Eq,
        Token::LParen => SqlToken::LParen,
        Token::RParen => SqlToken::RParen,
        Token::Whitespace(_) => SqlToken::Space,
        _ => SqlToken::Other,
    }).collect())
}

/// The tokens that are not whitespace, in their order.
pub open spec fn significant(ls: Seq<Lexeme>) -> Seq<Lexeme>
    decreases ls.len(),
{
    if ls.len() == 0 {
        ls
    } else if ls.last() is Space {
        significant(ls.drop_last())
    } else {
        significant(ls.drop_last()).push(ls.last())
    }
}

/// An unquoted word equal to keyword `k`, ignoring case.
pub open spec fn is_kw(l: Lexeme, k: Seq<char>) -> bool {
    match l {
        Lexeme::Word { value, quote } => quote is None && eq_ignore_case(value, k),
        _ => false,
    }
}

/// The clause keywords that end the reach of a clause found further back.
#[derive(Clone, Copy)]
pub enum Guard {
    Where,
    OrderBy,
    From,
    Select,
}

pub open spec fn guard_holds(g: Guard, l: Lexeme) -> bool {
    match g {
        Guard::Where => is_kw(l, "ORDER"@) || is_kw(l, "GROUP"@) || is_kw(l, "LIMIT"@)
            || is_kw(l, "FORMAT"@) || is_kw(l, "SETTINGS"@),
        Guard::OrderBy => is_kw(l, "LIMIT"@) || is_kw(l, "FORMAT"@) || is_kw(l, "SETTINGS"@)
            || is_kw(l, "HAVING"@) || is_kw(l, "WHERE"@),
        Guard::From => is_kw(l, "WHERE"@) || is_kw(l, "GROUP"@) || is_kw(l, "ORDER"@)
            || is_kw(l, "LIMIT"@) || is_kw(l, "FORMAT"@) || is_kw(l, "SETTINGS"@),
        Guard::Select => is_kw(l, "FROM"@),
    }
}

/// Some token strictly after position `i` is one of the guard's keywords.
pub open spec fn clause_after(ls: Seq<Lexeme>, i: int, g: Guard) -> bool {
    exists|j: int| i < j < ls.len() && #[trigger] guard_holds(g, ls[j])
}

/// A `TABLE` before position `i`, and a `CREATE` before that.
pub open spec fn create_table_before(ls: Seq<Lexeme>, i: int) -> bool {
    exists|k: int, j: int|
        0 <= k < j < i && #[trigger] is_kw(ls[k], "CREATE"@) && #[trigger] is_kw(ls[j], "TABLE"@)
}

pub open spec fn paren_step(l: Lexeme) -> int {
    match l {
        Lexeme::LParen => 1,
        Lexeme::RParen => -1,
        _ => 0,
    }
}

/// Nesting depth over the tokens from `i` up to, not including, `e`.
pub open spec fn depth(ls: Seq<Lexeme>, i: int, e: int) -> int
    decreases e - i,
{
    if e <= i {
        0
    } else {
        depth(ls, i, e - 1) + paren_step(ls[e - 1])
    }
}

/// The parenthesis at `i` is not closed by any later token.
pub open spec fn still_open(ls: Seq<Lexeme>, i: int) -> bool {
    forall|e: int| i < e <= ls.len() ==> #[trigger] depth(ls, i, e) > 0
}

/// The parenthesis at `i` opens the column list of a `CREATE ... TABLE ... (`.
pub open spec fn column_list_opener(ls: Seq<Lexeme>, i: int) -> bool {
    &&& ls[i] is LParen
    &&& create_table_before(ls, i)
    &&& still_open(ls, i)
}

/// The clause rules, tried in order at position `i` of the backward scan.
pub open spec fn rule_at(ls: Seq<Lexeme>, i: int) -> Option<SqlContext> {
    let t = ls[i];
    if (is_kw(t, "WHERE"@) || is_kw(t, "HAVING"@)) && !clause_after(ls, i, Guard::Where) {
        Some(SqlContext::WhereClause)
    } else if is_kw(t, "BY"@) && i > 0 && (is_kw(ls[i - 1], "ORDER"@) || is_kw(ls[i - 1], "GROUP"@))
        && !clause_after(ls, i, Guard::OrderBy) {
        Some(SqlContext::OrderByClause)
    } else if (is_kw(t, "FROM"@) || is_kw(t, "JOIN"@)) && !clause_after(ls, i, Guard::From) {
        Some(SqlContext::FromClause)
    } else if is_kw(t, "SELECT"@) && !clause_after(ls, i, Guard::Select) {
        Some(SqlContext::SelectClause)
    } else if column_list_opener(ls, i) {
        Some(SqlContext::ColumnDefinition)
    } else {
        None
    }
}

/// The backward scan over positions `i - 1` down to `0`.
pub open spec fn scan(ls: Seq<Lexeme>, i: int) -> SqlContext
    decreases i,
{
    if i <= 0 {
        SqlContext::Default
    } else {
        match rule_at(ls, i - 1) {
            Some(c) => c,
            None => scan(ls, i - 1),
        }
    }
}

/// After leading whitespace, the text begins with `=`.
pub open spec fn eq_sign_ahead(rest: Seq<char>) -> bool {
    exists|k: int|
        0 <= k < rest.len() && rest[k] == '=' && (forall|j: int| 0 <= j < k ==> is_space_char(
            #[trigger] rest[j],
        ))
}

/// The context of the significant tokens `ts` before the cursor, with `rest`
/// the text after it.
pub open spec fn classify(ts: Seq<Lexeme>, rest: Seq<char>) -> SqlContext {
    let n = ts.len() as int;
    if n == 0 {
        SqlContext::Default
    } else if n >= 2 && is_kw(ts[n - 2], "ENGINE"@) && ts[n - 1] is Eq {
        SqlContext::Engine
    } else if n >= 3 && is_kw(ts[n - 3], "ENGINE"@) && ts[n - 2] is Eq {
        SqlContext::Engine
    } else if is_kw(ts[n - 1], "ENGINE"@) && eq_sign_ahead(rest) {
        SqlContext::Engine
    } else if is_kw(ts[n - 1], "FORMAT"@) {
        SqlContext::Format
    } else if is_kw(ts[n - 1], "SETTINGS"@) {
        SqlContext::Settings
    } else {
        scan(ts, n)
    }
}

/// The cursor offset, in characters, clamped to the text.
pub open spec fn clamp(text: Seq<char>, offset: int) -> int {
    if offset > text.len() {
        text.len() as int
    } else {
        offset
    }
}

/// The context at character offset `offset` of `text`.
pub open spec fn detect_spec(text: Seq<char>, offset: int) -> SqlContext {
    let k = clamp(text, offset);
    match lexed(text.subrange(0, k)) {
        None => SqlContext::Default,
        Some(ls) => classify(significant(ls), text.subrange(k, text.len() as int)),
    }
}

fn copy_token(t: &SqlToken) -> (r: SqlToken)
    ensures
        r@ == t@,
{
    match t {
        SqlToken::Word { value, quote } => SqlToken::Word { value: value.clone(), quote: *quote },
        SqlToken::Eq => SqlToken::Eq,
        SqlToken::LParen => SqlToken::LParen,
        SqlToken::RParen => SqlToken::RParen,
        SqlToken::Space => SqlToken::Space,
        SqlToken::Other => SqlToken::Other,
    }
}

/// The tokens that are not whitespace, in their order.
pub fn significant_tokens(ts: &Vec<SqlToken>) -> (r: Vec<SqlToken>)
    ensures
        lexemes(r@) == significant(lexemes(ts@)),
{
    let ghost ls = lexemes(ts@);
    let mut r: Vec<SqlToken> = Vec::new();
    let mut i: usize = 0;
    while i < ts.len()
        invariant
            i <= ts.len(),
            ls == lexemes(ts@),
            lexemes(r@) == significant(ls.subrange(0, i as int)),
        decreases ts.len() - i,
    {
        assert(ls.subrange(0, i + 1).drop_last() =~= ls.subrange(0, i as int));
        assert(ls.subrange(0, i + 1).last() == ts@[i as int]@);
        match &ts[i] {
            SqlToken::Space => {},
            t => {
                let ghost before = r@;
                r.push(copy_token(t));
                assert(lexemes(r@) =~= lexemes(before).push(t@));
            },
        }
        i += 1;
    }
    assert(ls.subrange(0, ts.len() as int) =~= ls);
    r
}

/// Whether the token is the unquoted keyword `k`, ignoring case.
pub fn token_is(t: &SqlToken, k: &str) -> (r: bool)
    ensures
        r == is_kw(t@, k@),
{
    match t {
        SqlToken::Word { value, quote } => {
            if quote.is_some() {
                false
            } else {
                let a = chars_of(value.as_str());
                let b = chars_of(k);
                chars_eq_ignore_case(&a, &b)
            }
        },
        _ => false,
    }
}

fn guard_matches(g: Guard, t: &SqlToken) -> (r: bool)
    ensures
        r == guard_holds(g, t@),
{
    match g {
        Guard::Where => token_is(t, "ORDER") || token_is(t, "GROUP") || token_is(t, "LIMIT")
            || token_is(t, "FORMAT") || token_is(t, "SETTINGS"),
        Guard::OrderBy => token_is(t, "LIMIT") || token_is(t, "FORMAT") || token_is(t, "SETTINGS")
            || token_is(t, "HAVING") || token_is(t, "WHERE"),
        Guard::From => token_is(t, "WHERE") || token_is(t, "GROUP") || token_is(t, "ORDER")
            || token_is(t, "LIMIT") || token_is(t, "FORMAT") || token_is(t, "SETTINGS"),
        Guard::Select => token_is(t, "FROM"),
    }
}

fn has_clause_after(ts: &Vec<SqlToken>, i: usize, g: Guard) -> (r: bool)
    requires
        i < ts.len(),
    ensures
        r == clause_after(lexemes(ts@), i as int, g),
{
    let ghost ls = lexemes(ts@);
    let mut j: usize = i + 1;
    while j < ts.len()
        invariant
            i < j <= ts.len(),
            ls == lexemes(ts@),
            forall|jj: int| i < jj < j ==> !#[trigger] guard_holds(g, ls[jj]),
        decreases ts.len() - j,
    {
        if guard_matches(g, &ts[j]) {
            assert(guard_holds(g, ls[j as int]));
            return true;
        }
        j += 1;
    }
    false
}

fn has_create_table_before(ts: &Vec<SqlToken>, i: usize) -> (r: bool)
    requires
        i < ts.len(),
    ensures
        r == create_table_before(lexemes(ts@), i as int),
{
    let ghost ls = lexemes(ts@);
    let mut j: usize = i;
    while j > 0
        invariant
            j <= i < ts.len(),
            ls == lexemes(ts@),
            forall|jj: int| j <= jj < i ==> !#[trigger] is_kw(ls[jj], "TABLE"@),
        decreases j,
    {
        if token_is(&ts[j - 1], "TABLE") {
            let t = j - 1;
            assert(ls[t as int] == ts@[t as int]@);
            let mut k: usize = 0;
            while k < t
                invariant
                    k <= t < i < ts.len(),
                    ls == lexemes(ts@),
                    forall|kk: int| 0 <= kk < k ==> !#[trigger] is_kw(ls[kk], "CREATE"@),
                    forall|jj: int| t < jj < i ==> !#[trigger] is_kw(ls[jj], "TABLE"@),
                    is_kw(ls[t as int], "TABLE"@),
                decreases t - k,
            {
                if token_is(&ts[k], "CREATE") {
                    assert(ls[k as int] == ts@[k as int]@);
                    assert(is_kw(ls[k as int], "CREATE"@) && is_kw(ls[t as int], "TABLE"@));
                    return true;
                }
                k += 1;
            }
            assert forall|kk: int, jj: int|
                0 <= kk < jj < i && #[trigger] is_kw(ls[kk], "CREATE"@) && #[trigger] is_kw(
                    ls[jj],
                    "TABLE"@,
                ) implies false by {
                if jj > t {
                    assert(!is_kw(ls[jj], "TABLE"@));
                } else {
                    assert(!is_kw(ls[kk], "CREATE"@));
                }
            }
            return false;
        }
        j -= 1;
    }
    false
}

fn is_still_open(ts: &Vec<SqlToken>, i: usize) -> (r: bool)
    requires
        i < ts.len(),
        ts@[i as int] is LParen,
    ensures
        r == still_open(lexemes(ts@), i as int),
{
    let ghost ls = lexemes(ts@);
    let mut d: usize = 1;
    let mut e: usize = i + 1;
    assert(depth(ls, i as int, i as int) == 0);
    assert(depth(ls, i as int, e as int) == 1);
    while e < ts.len()
        invariant
            i < e <= ts.len(),
            ls == lexemes(ts@),
            d as int == depth(ls, i as int, e as int),
            1 <= d <= e - i,
            forall|ee: int| i < ee <= e ==> #[trigger] depth(ls, i as int, ee) > 0,
        decreases ts.len() - e,
    {
        match ts[e] {
            SqlToken::LParen => {
                d = d + 1;
            },
            SqlToken::RParen => {
                d = d - 1;
            },
            _ => {},
        }
        e += 1;
        assert(depth(ls, i as int, e as int) == d);
        if d == 0 {
            return false;
        }
    }
    true
}

fn rule_at_position(ts: &Vec<SqlToken>, i: usize) -> (r: Option<SqlContext>)
    requires
        i < ts.len(),
    ensures
        r == rule_at(lexemes(ts@), i as int),
{
    let t = &ts[i];
    if (token_is(t, "WHERE") || token_is(t, "HAVING")) && !has_clause_after(ts, i, Guard::Where) {
        Some(SqlContext::WhereClause)
    } else if token_is(t, "BY") && i > 0 && (token_is(&ts[i - 1], "ORDER") || token_is(
        &ts[i - 1],
        "GROUP",
    )) && !has_clause_after(ts, i, Guard::OrderBy) {
        Some(SqlContext::OrderByClause)
    } else if (token_is(t, "FROM") || token_is(t, "JOIN")) && !has_clause_after(
        ts,
        i,
        Guard::From,
    ) {
        Some(SqlContext::FromClause)
    } else if token_is(t, "SELECT") && !has_clause_after(ts, i, Guard::Select) {
        Some(SqlContext::SelectClause)
    } else if matches!(t, SqlToken::LParen) && has_create_table_before(ts, i) && is_still_open(
        ts,
        i,
    ) {
        Some(SqlContext::ColumnDefinition)
    } else {
        None
    }
}

fn scan_back(ts: &Vec<SqlToken>) -> (r: SqlContext)
    ensures
        r == scan(lexemes(ts@), ts.len() as int),
{
    let mut i: usize = ts.len();
    while i > 0
        invariant
            i <= ts.len(),
            scan(lexemes(ts@), ts.len() as int) == scan(lexemes(ts@), i as int),
        decreases i,
    {
        match rule_at_position(ts, i - 1) {
            Some(c) => {
                return c;
            },
            None => {},
        }
        i -= 1;
    }
    SqlContext::Default
}

fn eq_sign_follows(rest: &Vec<char>) -> (r: bool)
    ensures
        r == eq_sign_ahead(rest@),
{
    let mut j: usize = 0;
    while j < rest.len()
        invariant
            j <= rest.len(),
            forall|jj: int| 0 <= jj < j ==> is_space_char(#[trigger] rest@[jj]),
        decreases rest.len() - j,
    {
        let c = rest[j];
        if !is_space(c) {
            if c == '=' {
                return true;
            }
            assert forall|k: int|
                0 <= k < rest@.len() && rest@[k] == '=' implies !(forall|jj: int|
                0 <= jj < k ==> is_space_char(#[trigger] rest@[jj])) by {
                if k > j {
                    assert(!is_space_char(rest@[j as int]));
                }
            }
            return false;
        }
        j += 1;
    }
    false
}

/// The context given the tokens before the cursor, as the tokenizer returned
/// them, and the text after the cursor.
pub fn context_from_tokens(tokens: &Vec<SqlToken>, rest: &Vec<char>) -> (r: SqlContext)
    ensures
        r == classify(significant(lexemes(tokens@)), rest@),
{
    let ts = significant_tokens(tokens);
    let n = ts.len();
    if n == 0 {
        SqlContext::Default
    } else if n >= 2 && token_is(&ts[n - 2], "ENGINE") && matches!(ts[n - 1], SqlToken::Eq) {
        SqlContext::Engine
    } else if n >= 3 && token_is(&ts[n - 3], "ENGINE") && matches!(ts[n - 2], SqlToken::Eq) {
        SqlContext::Engine
    } else if token_is(&ts[n - 1], "ENGINE") && eq_sign_follows(rest) {
        SqlContext::Engine
    } else if token_is(&ts[n - 1], "FORMAT") {
        SqlContext::Format
    } else if token_is(&ts[n - 1], "SETTINGS") {
        SqlContext::Settings
    } else {
        scan_back(&ts)
    }
}

/// Detection depends on the text and the offset alone: the same text and
/// offset always give the same context.
pub proof fn lemma_detect_deterministic(t1: Seq<char>, o1: int, t2: Seq<char>, o2: int)
    requires
        t1 == t2,
        o1 == o2,
    ensures
        detect_spec(t1, o1) == detect_spec(t2, o2),
{
}

/// An offset past the end of the text is the same as the end of the text.
pub proof fn lemma_offset_past_end(text: Seq<char>, offset: int)
    requires
        offset > text.len(),
    ensures
        detect_spec(text, offset) == detect_spec(text, text.len() as int),
{
}

/// The context at the cursor, `cursor_offset` characters into `text`; an
/// offset past the end stands for the end.
pub fn detect(text: &str, cursor_offset: usize) -> (r: SqlContext)
    ensures
        r == detect_spec(text@, cursor_offset as int),
{
    let chars = chars_of(text);
    let n = chars.len();
    let k = if cursor_offset > n {
        n
    } else {
        cursor_offset
    };
    let prefix = chars_between(&chars, 0, k);
    let rest = chars_between(&chars, k, n);
    match tokenize(&prefix) {
        None => SqlContext::Default,
        Some(tokens) => context_from_tokens(&tokens, &rest),
    }
}

} // verus!
