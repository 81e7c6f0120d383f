use vstd::prelude::*;

use crate::text::{chars_between, chars_of, is_space, is_space_char};
use sqlparser::dialect::ClickHouseDialect;
use sqlparser::parser::Parser;

verus! {

/// The outcome of checking a SQL text.
pub struct ValidationResult {
    pub valid: bool,
    pub error: Option<ValidationError>,
}

/// The parser's message, with the line and column it names, where it names them.
pub struct ValidationError {
    pub message: String,
    pub line: Option<u32>,
    pub column: Option<u32>,
}

/// The outcome of pretty-printing a SQL text.
pub struct FormatResult {
    pub success: bool,
    pub formatted: Option<String>,
    pub error: Option<String>,
}

/// What the ClickHouse-dialect parser makes of a text: each statement
/// pretty-printed, or the parser's error message.
pub uninterp spec fn parse_result(sql: Seq<char>) -> Result<Seq<Seq<char>>, Seq<char>>;

/// Relies on sqlparser's `Parser::parse_sql` (ClickHouse dialect), with each
/// statement rendered by its alternate (`{:#}`) `Display` and an error by the
/// `Display` of `ParserError`, which writes `sql parser error: ` first. The
/// result depends on the text alone.
#[verifier::external_body]
fn parse_and_render(sql: &str) -> (r: Result<Vec<String>, String>)
    ensures
        match r {
            Ok(v) => parse_result(sql@) == Ok::<Seq<Seq<char>>, Seq<char>>(string_views(v@)),
            Err(m) => parse_result(sql@) == Err::<Seq<Seq<char>>, Seq<char>>(m@)
                && "sql parser error: "@.is_prefix_of(m@),
        },
{
    match Parser::parse_sql(&ClickHouseDialect {}, sql) {
        Ok(statements) => Ok(statements.iter().map(|s| format!("{s:#}")).collect()),
        Err(e) => Err(e.to_string()),
    }
}

/// The first position from `i` on where `pat` occurs in `s`.
pub open spec fn find_at(s: Seq<char>, pat: Seq<char>, i: int) -> Option<int>
    decreases s.len() + 1 - i,
{
    if i < 0 || i + pat.len() > s.len() {
        None
    } else if s.subrange(i, i + pat.len()) == pat {
        Some(i)
    } else {
        find_at(s, pat, i + 1)
    }
}

/// The first position from `i` on that holds `,`, or the end of `s`.
pub open spec fn comma_end(s: Seq<char>, i: int) -> int
    decreases s.len() - i,
{
    if i < 0 || i >= s.len() {
        s.len() as int
    } else if s[i] == ',' {
        i
    } else {
        comma_end(s, i + 1)
    }
}

pub open spec fn is_digit(c: char) -> bool {
    '0' <= c && c <= '9'
}

/// The first position from `i` on that holds no digit, or the end of `s`.
pub open spec fn digits_end(s: Seq<char>, i: int) -> int
    decreases s.len() - i,
{
    if i < 0 || i >= s.len() {
        s.len() as int
    } else if !is_digit(s[i]) {
        i
    } else {
        digits_end(s, i + 1)
    }
}

pub open spec fn trim_start(s: Seq<char>) -> Seq<char>
    decreases s.len(),
{
    if s.len() > 0 && is_space_char(s[0]) {
        trim_start(s.drop_first())
    } else {
        s
    }
}

pub open spec fn trim_end(s: Seq<char>) -> Seq<char>
    decreases s.len(),
{
    if s.len() > 0 && is_space_char(s.last()) {
        trim_end(s.drop_last())
    } else {
        s
    }
}

pub open spec fn trim(s: Seq<char>) -> Seq<char> {
    trim_end(trim_start(s))
}

/// The number that decimal digits `ds` write.
pub open spec fn digits_value(ds: Seq<char>) -> nat
    decreases ds.len(),
{
    if ds.len() == 0 {
        0
    } else {
        digits_value(ds.drop_last()) * 10 + ((ds.last() as u32) - ('0' as u32)) as nat
    }
}

pub open spec fn all_digits(ds: Seq<char>) -> bool {
    forall|i: int| 0 <= i < ds.len() ==> is_digit(#[trigger] ds[i])
}

/// The text after a leading `+`, if there is one.
pub open spec fn unsigned_part(s: Seq<char>) -> Seq<char> {
    if s.len() > 0 && s[0] == '+' {
        s.drop_first()
    } else {
        s
    }
}

/// A `u32` written in decimal, with an optional leading `+`.
pub open spec fn parse_u32_spec(s: Seq<char>) -> Option<u32> {
    let ds = unsigned_part(s);
    if ds.len() > 0 && all_digits(ds) && digits_value(ds) <= u32::MAX {
        Some(digits_value(ds) as u32)
    } else {
        None
    }
}

/// The number after the first `Line: ` of a message, up to the next comma.
pub open spec fn line_in(m: Seq<char>) -> Option<u32> {
    match find_at(m, "Line: "@, 0) {
        None => None,
        Some(i) => {
            let start = i + "Line: "@.len();
            parse_u32_spec(trim(m.subrange(start, comma_end(m, start))))
        },
    }
}

/// The number after the first `Column: ` of a message, up to the first non-digit.
pub open spec fn column_in(m: Seq<char>) -> Option<u32> {
    match find_at(m, "Column: "@, 0) {
        None => None,
        Some(i) => {
            let start = i + "Column: "@.len();
            parse_u32_spec(trim(m.subrange(start, digits_end(m, start))))
        },
    }
}

/// `parts` joined, with `sep` between each two.
pub open spec fn join_with(parts: Seq<Seq<char>>, sep: Seq<char>) -> Seq<char>
    decreases parts.len(),
{
    if parts.len() == 0 {
        Seq::empty()
    } else if parts.len() == 1 {
        parts[0]
    } else {
        join_with(parts.drop_last(), sep) + sep + parts.last()
    }
}

pub open spec fn string_views(v: Seq<String>) -> Seq<Seq<char>> {
    v.map_values(|s: String| s@)
}

fn matches_at(s: &Vec<char>, pat: &Vec<char>, i: usize) -> (r: bool)
    requires
        i + pat.len() <= s.len(),
    ensures
        r == (s@.subrange(i as int, i + pat.len()) == pat@),
{
    let mut k: usize = 0;
    while k < pat.len()
        invariant
            i + pat.len() <= s.len(),
            k <= pat.len(),
            forall|j: int| 0 <= j < k ==> s@[i + j] == #[trigger] pat@[j],
        decreases pat.len() - k,
    {
        if s[i + k] != pat[k] {
            assert(s@.subrange(i as int, i + pat.len())[k as int] != pat@[k as int]);
            return false;
        }
        k += 1;
    }
    assert(s@.subrange(i as int, i + pat.len()) =~= pat@);
    true
}

/// The first position where `pat` occurs in `s`.
fn find_pattern(s: &Vec<char>, pat: &Vec<char>) -> (r: Option<usize>)
    ensures
        match r {
            Some(i) => i + pat.len() <= s.len() && find_at(s@, pat@, 0) == Some(i as int),
            None => find_at(s@, pat@, 0) is None,
        },
{
    if pat.len() > s.len() {
        return None;
    }
    let mut i: usize = 0;
    while i <= s.len() - pat.len()
        invariant
            pat.len() <= s.len(),
            i <= s.len() - pat.len() + 1,
            find_at(s@, pat@, 0) == find_at(s@, pat@, i as int),
        decreases s.len() - pat.len() + 1 - i,
    {
        if matches_at(s, pat, i) {
            return Some(i);
        }
        if i == s.len() - pat.len() {
            assert(find_at(s@, pat@, i + 1) is None);
            return None;
        }
        i += 1;
    }
    None
}

fn comma_end_of(s: &Vec<char>, start: usize) -> (r: usize)
    requires
        start <= s.len(),
    ensures
        start <= r <= s.len(),
        r as int == comma_end(s@, start as int),
{
    let mut j: usize = start;
    while j < s.len()
        invariant
            start <= j <= s.len(),
            comma_end(s@, start as int) == comma_end(s@, j as int),
        decreases s.len() - j,
    {
        if s[j] == ',' {
            return j;
        }
        j += 1;
    }
    j
}

fn digits_end_of(s: &Vec<char>, start: usize) -> (r: usize)
    requires
        start <= s.len(),
    ensures
        start <= r <= s.len(),
        r as int == digits_end(s@, start as int),
{
    let mut j: usize = start;
    while j < s.len()
        invariant
            start <= j <= s.len(),
            digits_end(s@, start as int) == digits_end(s@, j as int),
        decreases s.len() - j,
    {
        if !('0' <= s[j] && s[j] <= '9') {
            return j;
        }
        j += 1;
    }
    j
}

/// `v` without leading and trailing whitespace.
pub fn trim_chars(v: &Vec<char>) -> (r: Vec<char>)
    ensures
        r@ == trim(v@),
{
    let n = v.len();
    let mut a: usize = 0;
    assert(v@.subrange(0, n as int) =~= v@);
    while a < n && is_space(v[a])
        invariant
            a <= n == v.len(),
            trim_start(v@) == trim_start(v@.subrange(a as int, n as int)),
        decreases n - a,
    {
        assert(v@.subrange(a as int, n as int).drop_first() =~= v@.subrange(a + 1, n as int));
        a += 1;
    }
    assert(trim_start(v@) == v@.subrange(a as int, n as int));
    let mut b: usize = n;
    while b > a && is_space(v[b - 1])
        invariant
            a <= b <= n == v.len(),
            trim(v@) == trim_end(v@.subrange(a as int, b as int)),
        decreases b,
    {
        assert(v@.subrange(a as int, b as int).drop_last() =~= v@.subrange(a as int, b - 1));
        b -= 1;
    }
    chars_between(v, a, b)
}

proof fn lemma_prefix_value_le(ds: Seq<char>, k: int)
    requires
        0 <= k <= ds.len(),
    ensures
        digits_value(ds.subrange(0, k)) <= digits_value(ds),
    decreases ds.len(),
{
    if k < ds.len() {
        lemma_prefix_value_le(ds.drop_last(), k);
        assert(ds.drop_last().subrange(0, k) =~= ds.subrange(0, k));
    } else {
        assert(ds.subrange(0, k) =~= ds);
    }
}

/// Reads a `u32` written in decimal, with an optional leading `+`.
pub fn parse_u32_chars(s: &Vec<char>) -> (r: Option<u32>)
    ensures
        r == parse_u32_spec(s@),
{
    let n = s.len();
    let start: usize = if n > 0 && s[0] == '+' {
        1
    } else {
        0
    };
    let ghost ds = s@.subrange(start as int, n as int);
    assert(ds =~= unsigned_part(s@));
    if start == n {
        return None;
    }
    let mut acc: u64 = 0;
    let mut i: usize = start;
    assert(s@.subrange(start as int, start as int) =~= Seq::<char>::empty());
    while i < n
        invariant
            start <= i <= n == s.len(),
            ds == s@.subrange(start as int, n as int),
            ds == unsigned_part(s@),
            acc as int == digits_value(s@.subrange(start as int, i as int)),
            acc <= u32::MAX,
            forall|k: int| start <= k < i ==> is_digit(#[trigger] s@[k]),
        decreases n - i,
    {
        let c = s[i];
        if !('0' <= c && c <= '9') {
            assert(!is_digit(ds[i - start]));
            return None;
        }
        let d = ((c as u32) - ('0' as u32)) as u64;
        assert(s@.subrange(start as int, i + 1).drop_last() =~= s@.subrange(start as int, i as int));
        acc = acc * 10 + d;
        if acc > u32::MAX as u64 {
            proof {
                if all_digits(ds) {
                    lemma_prefix_value_le(ds, i + 1 - start);
                    assert(ds.subrange(0, i + 1 - start) =~= s@.subrange(start as int, i + 1));
                }
            }
            return None;
        }
        i += 1;
    }
    assert(s@.subrange(start as int, n as int) == ds);
    assert forall|k: int| 0 <= k < ds.len() implies #[trigger] is_digit(ds[k]) by {
        assert(ds[k] == s@[start + k]);
    }
    Some(acc as u32)
}

/// The line and column that a parser message names after `Line: ` and
/// `Column: `, where it names them.
pub fn parse_error_position(message: &str) -> (r: (Option<u32>, Option<u32>))
    ensures
        r.0 == line_in(message@),
        r.1 == column_in(message@),
{
    let m = chars_of(message);
    let line_pat = chars_of("Line: ");
    let line = match find_pattern(&m, &line_pat) {
        None => None,
        Some(i) => {
            let start = i + line_pat.len();
            let end = comma_end_of(&m, start);
            parse_u32_chars(&trim_chars(&chars_between(&m, start, end)))
        },
    };
    let column_pat = chars_of("Column: ");
    let column = match find_pattern(&m, &column_pat) {
        None => None,
        Some(i) => {
            let start = i + column_pat.len();
            let end = digits_end_of(&m, start);
            parse_u32_chars(&trim_chars(&chars_between(&m, start, end)))
        },
    };
    (line, column)
}

/// The rendered statements, joined by `;` and a line break.
pub fn join_statements(parts: &Vec<String>) -> (r: String)
    ensures
        r@ == join_with(string_views(parts@), ";\n"@),
{
    let ghost pv = string_views(parts@);
    let mut r = String::new();
    let mut i: usize = 0;
    while i < parts.len()
        invariant
            i <= parts.len(),
            pv == string_views(parts@),
            r@ == join_with(pv.subrange(0, i as int), ";\n"@),
        decreases parts.len() - i,
    {
        assert(pv.subrange(0, i + 1).drop_last() =~= pv.subrange(0, i as int));
        if i > 0 {
            r.append(";\n");
        } else {
            assert(r@ == Seq::<char>::empty());
            assert(r@ + parts@[0]@ =~= parts@[0]@);
        }
        r.append(parts[i].as_str());
        i += 1;
    }
    assert(pv.subrange(0, parts.len() as int) =~= pv);
    r
}

/// The validation result for a parser outcome: `None` where the text parsed,
/// else the parser's message.
pub fn validation_outcome(error: Option<String>) -> (r: ValidationResult)
    ensures
        match error {
            None => r.valid && r.error is None,
            Some(m) => {
                &&& !r.valid
                &&& r.error is Some
                &&& r.error->0.message@ == m@
                &&& r.error->0.line == line_in(m@)
                &&& r.error->0.column == column_in(m@)
            },
        },
{
    match error {
        None => ValidationResult { valid: true, error: None },
        Some(message) => {
            let (line, column) = parse_error_position(message.as_str());
            ValidationResult { valid: false, error: Some(ValidationError { message, line, column }) }
        },
    }
}

/// Checks `sql` with the ClickHouse-dialect parser: valid where it parses,
/// else the parser's message with the line and column it names.
pub fn validate_sql(sql: &str) -> (r: ValidationResult)
    ensures
        match parse_result(sql@) {
            Ok(_) => r.valid && r.error is None,
            Err(m) => {
                &&& !r.valid
                &&& r.error is Some
                &&& r.error->0.message@ == m
                &&& "sql parser error: "@.is_prefix_of(m)
                &&& r.error->0.line == line_in(m)
                &&& r.error->0.column == column_in(m)
            },
        },
{
    match parse_and_render(sql) {
        Ok(_) => validation_outcome(None),
        Err(message) => validation_outcome(Some(message)),
    }
}

/// The format result for a parser outcome: the rendered statements, or the
/// parser's message. No statements at all is an error.
pub fn format_outcome(rendered: Result<Vec<String>, String>) -> (r: FormatResult)
    ensures
        match rendered {
            Ok(parts) => if parts.len() == 0 {
                &&& !r.success
                &&& r.formatted is None
                &&& r.error is Some
                &&& r.error->0@ == "No SQL statements found"@
            } else {
                &&& r.success
                &&& r.formatted is Some
                &&& r.formatted->0@ == join_with(string_views(parts@), ";\n"@)
                &&& r.error is None
            },
            Err(m) => !r.success && r.formatted is None && r.error is Some && r.error->0@ == m@,
        },
{
    match rendered {
        Ok(parts) => {
            if parts.len() == 0 {
                FormatResult {
                    success: false,
                    formatted: None,
                    error: Some(String::from_str("No SQL statements found")),
                }
            } else {
                FormatResult { success: true, formatted: Some(join_statements(&parts)), error: None }
            }
        },
        Err(message) => FormatResult { success: false, formatted: None, error: Some(message) },
    }
}

/// Pretty-prints the statements of `sql`, joined by `;` and a line break.
/// A text without statements is an error, as is one the parser rejects.
pub fn format_sql(sql: &str) -> (r: FormatResult)
    ensures
        match parse_result(sql@) {
            Ok(parts) => if parts.len() == 0 {
                &&& !r.success
                &&& r.formatted is None
                &&& r.error is Some
                &&& r.error->0@ == "No SQL statements found"@
            } else {
                &&& r.success
                &&& r.formatted is Some
                &&& r.formatted->0@ == join_with(parts, ";\n"@)
                &&& r.error is None
            },
            Err(m) => {
                &&& !r.success
                &&& r.formatted is None
                &&& r.error is Some
                &&& r.error->0@ == m
                &&& "sql parser error: "@.is_prefix_of(m)
            },
        },
{
    format_outcome(parse_and_render(sql))
}

} // verus!
