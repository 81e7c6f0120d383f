use vstd::prelude::*;

use crate::catalog::{
    DataTypeRecord, FormatRecord, FunctionRecord, SettingRecord, TableEngineRecord,
    TableFunctionRecord,
};
use crate::text::{chars_eq_ignore_case, chars_of, eq_ignore_case};

verus! {

/// What a completion stands for.
#[derive(Clone, Copy, Debug, PartialEq, Eq, Structural)]
pub enum CompletionKind {
    Function,
    Keyword,
    DataType,
    TableEngine,
    Format,
    Setting,
    AggregateFunction,
    TableFunction,
}

/// One candidate offered at the cursor. `documentation` is markdown.
pub struct CompletionItem {
    pub label: String,
    pub kind: CompletionKind,
    pub detail: Option<String>,
    pub documentation: Option<String>,
    /// Rendered with parentheses: functions and table functions.
    pub has_params: bool,
    /// A category band followed by the label; items sort by it.
    pub sort_key: String,
}

/// The mathematical value of a completion item.
pub struct ItemView {
    pub label: Seq<char>,
    pub kind: CompletionKind,
    pub detail: Option<Seq<char>>,
    pub documentation: Option<Seq<char>>,
    pub has_params: bool,
    pub sort_key: Seq<char>,
}

pub open spec fn opt_view(o: Option<String>) -> Option<Seq<char>> {
    match o {
        Some(s) => Some(s@),
        None => None,
    }
}

impl View for CompletionItem {
    type V = ItemView;

    open spec fn view(&self) -> ItemView {
        ItemView {
            label: self.label@,
            kind: self.kind,
            detail: opt_view(self.detail),
            documentation: opt_view(self.documentation),
            has_params: self.has_params,
            sort_key: self.sort_key@,
        }
    }
}

pub open spec fn views(s: Seq<CompletionItem>) -> Seq<ItemView> {
    s.map_values(|it: CompletionItem| it@)
}

/// `part` added to `acc` after a blank line; an empty part adds nothing.
pub open spec fn section(acc: Seq<char>, part: Seq<char>) -> Seq<char> {
    if part.len() == 0 {
        acc
    } else if acc.len() == 0 {
        part
    } else {
        acc + "\n\n"@ + part
    }
}

/// The documentation of a function from its own fields.
pub open spec fn plain_doc(f: FunctionRecord) -> Seq<char> {
    section(
        section(
            section(section(section(Seq::empty(), f.syntax@), f.description@), f.arguments@),
            f.returned_value@,
        ),
        f.categories@,
    )
}

pub open spec fn doc_if_any(s: Seq<char>) -> Option<Seq<char>> {
    if s.len() == 0 {
        None
    } else {
        Some(s)
    }
}

/// The first function from position `i` on whose name is `name`, ignoring case.
pub open spec fn find_from(fs: Seq<FunctionRecord>, name: Seq<char>, i: int) -> Option<int>
    decreases fs.len() - i,
{
    if i < 0 || i >= fs.len() {
        None
    } else if eq_ignore_case(fs[i].name@, name) {
        Some(i)
    } else {
        find_from(fs, name, i + 1)
    }
}

pub open spec fn alias_header(name: Seq<char>, target: Seq<char>) -> Seq<char> {
    "**"@ + name + "** _(alias for `"@ + target + "`)_"@
}

/// The documentation of an alias: a header, then the target's own documentation.
pub open spec fn alias_doc(fs: Seq<FunctionRecord>, name: Seq<char>, target: Seq<char>) -> Seq<
    char,
> {
    match find_from(fs, target, 0) {
        Some(j) => section(alias_header(name, target), plain_doc(fs[j])),
        None => alias_header(name, target),
    }
}

pub open spec fn alias_detail(target: Seq<char>) -> Seq<char> {
    "(alias for "@ + target + ")"@
}

/// The completion of function `f` of the function list `fs`.
pub open spec fn function_item(fs: Seq<FunctionRecord>, f: FunctionRecord) -> ItemView {
    let kind = if f.is_aggregate {
        CompletionKind::AggregateFunction
    } else {
        CompletionKind::Function
    };
    match f.alias_to {
        Some(t) => ItemView {
            label: f.name@,
            kind,
            detail: Some(alias_detail(t@)),
            documentation: Some(alias_doc(fs, f.name@, t@)),
            has_params: true,
            sort_key: "9_"@ + f.name@,
        },
        None => ItemView {
            label: f.name@,
            kind,
            detail: Some(
                if f.is_aggregate {
                    "(aggregate function)"@
                } else {
                    "(function)"@
                },
            ),
            documentation: doc_if_any(plain_doc(f)),
            has_params: true,
            sort_key: "1_"@ + f.name@,
        },
    }
}

pub open spec fn keyword_item(k: Seq<char>) -> ItemView {
    ItemView {
        label: k,
        kind: CompletionKind::Keyword,
        detail: Some("(keyword)"@),
        documentation: None,
        has_params: false,
        sort_key: "0_"@ + k,
    }
}

pub open spec fn data_type_item(d: DataTypeRecord) -> ItemView {
    match d.alias_to {
        Some(t) => ItemView {
            label: d.name@,
            kind: CompletionKind::DataType,
            detail: Some(alias_detail(t@)),
            documentation: None,
            has_params: false,
            sort_key: "9_"@ + d.name@,
        },
        None => ItemView {
            label: d.name@,
            kind: CompletionKind::DataType,
            detail: Some("(data type)"@),
            documentation: None,
            has_params: false,
            sort_key: "2_"@ + d.name@,
        },
    }
}

pub open spec fn table_engine_item(e: TableEngineRecord) -> ItemView {
    ItemView {
        label: e.name@,
        kind: CompletionKind::TableEngine,
        detail: Some("(table engine)"@),
        documentation: None,
        has_params: false,
        sort_key: "3_"@ + e.name@,
    }
}

pub open spec fn format_detail(is_input: bool, is_output: bool) -> Seq<char> {
    if is_input && is_output {
        "(format: input/output)"@
    } else if is_input {
        "(format: input only)"@
    } else if is_output {
        "(format: output only)"@
    } else {
        "(format)"@
    }
}

pub open spec fn format_item(f: FormatRecord) -> ItemView {
    ItemView {
        label: f.name@,
        kind: CompletionKind::Format,
        detail: Some(format_detail(f.is_input, f.is_output)),
        documentation: None,
        has_params: false,
        sort_key: "4_"@ + f.name@,
    }
}

pub open spec fn table_function_item(t: TableFunctionRecord) -> ItemView {
    ItemView {
        label: t.name@,
        kind: CompletionKind::TableFunction,
        detail: Some("(table function)"@),
        documentation: doc_if_any(t.description@),
        has_params: true,
        sort_key: "5_"@ + t.name@,
    }
}

pub open spec fn setting_item(s: SettingRecord, merge_tree: bool) -> ItemView {
    ItemView {
        label: s.name@,
        kind: CompletionKind::Setting,
        detail: Some(
            if merge_tree {
                "(MergeTree setting: "@ + s.value_type@ + ")"@
            } else {
                "(setting: "@ + s.value_type@ + ")"@
            },
        ),
        documentation: doc_if_any(s.description@),
        has_params: false,
        sort_key: "6_"@ + s.name@,
    }
}

/// `sub` occurs somewhere in `s`.
pub open spec fn contains(s: Seq<char>, sub: Seq<char>) -> bool {
    exists|i: int| 0 <= i && i + sub.len() <= s.len() && #[trigger] s.subrange(i, i + sub.len()) == sub
}

/// `s` ends with `t`.
pub open spec fn ends_with(s: Seq<char>, t: Seq<char>) -> bool {
    t.len() <= s.len() && s.subrange(s.len() - t.len(), s.len() as int) == t
}

/// The documentation of an alias says `alias for`, and ends with the target's
/// own documentation where the target is found and has any.
pub proof fn lemma_alias_documentation(fs: Seq<FunctionRecord>, f: FunctionRecord)
    requires
        f.alias_to is Some,
    ensures
        function_item(fs, f).documentation is Some,
        contains(function_item(fs, f).documentation->0, "alias for"@),
        forall|j: int|
            find_from(fs, f.alias_to->0@, 0) == Some(j) && plain_doc(#[trigger] fs[j]).len() > 0
                ==> ends_with(function_item(fs, f).documentation->0, plain_doc(fs[j])),
{
    let name = f.name@;
    let target = f.alias_to->0@;
    let header = alias_header(name, target);
    let doc = function_item(fs, f).documentation->0;
    reveal_strlit("** _(alias for `");
    reveal_strlit("alias for");
    reveal_strlit("**");
    let i: int = 2 + name.len() as int + 5;
    assert(header.subrange(i, i + 9) =~= "alias for"@);
    assert(header.len() >= i + 9);
    assert(doc.len() >= header.len());
    assert(doc.subrange(0, header.len() as int) =~= header);
    assert(doc.subrange(i, i + 9) =~= header.subrange(i, i + 9));
    assert(doc.subrange(i, i + "alias for"@.len()) == "alias for"@);
    assert forall|j: int|
        find_from(fs, target, 0) == Some(j) && plain_doc(#[trigger] fs[j]).len() > 0 implies ends_with(
        doc,
        plain_doc(fs[j]),
    ) by {
        let d = plain_doc(fs[j]);
        assert(doc == header + "\n\n"@ + d);
        assert(doc.subrange(doc.len() - d.len(), doc.len() as int) =~= d);
    }
}

fn copy_opt(o: &Option<String>) -> (r: Option<String>)
    ensures
        opt_view(r) == opt_view(*o),
{
    match o {
        Some(s) => Some(s.clone()),
        None => None,
    }
}

/// A copy of a completion item.
pub fn copy_item(it: &CompletionItem) -> (r: CompletionItem)
    ensures
        r@ == it@,
{
    CompletionItem {
        label: it.label.clone(),
        kind: it.kind,
        detail: copy_opt(&it.detail),
        documentation: copy_opt(&it.documentation),
        has_params: it.has_params,
        sort_key: it.sort_key.clone(),
    }
}

/// `band` followed by `name`.
fn banded(band: &str, name: &String) -> (r: String)
    ensures
        r@ == band@ + name@,
{
    let mut s = String::from_str(band);
    s.append(name.as_str());
    s
}

/// `a`, then `b`, then `c`.
fn joined(a: &str, b: &String, c: &str) -> (r: String)
    ensures
        r@ == a@ + b@ + c@,
{
    let mut s = String::from_str(a);
    s.append(b.as_str());
    s.append(c);
    s
}

fn add_section(acc: &mut String, part: &String)
    ensures
        final(acc)@ == section(old(acc)@, part@),
{
    if part.as_str().is_empty() {
    } else if acc.as_str().is_empty() {
        acc.append(part.as_str());
    } else {
        acc.append("\n\n");
        acc.append(part.as_str());
    }
}

fn plain_doc_of(f: &FunctionRecord) -> (r: String)
    ensures
        r@ == plain_doc(*f),
{
    let mut d = String::new();
    add_section(&mut d, &f.syntax);
    add_section(&mut d, &f.description);
    add_section(&mut d, &f.arguments);
    add_section(&mut d, &f.returned_value);
    add_section(&mut d, &f.categories);
    d
}

fn doc_if_nonempty(s: String) -> (r: Option<String>)
    ensures
        opt_view(r) == doc_if_any(s@),
{
    if s.as_str().is_empty() {
        None
    } else {
        Some(s)
    }
}

/// The position of the first function named `name`, ignoring case.
pub fn find_function(fs: &Vec<FunctionRecord>, name: &String) -> (r: Option<usize>)
    ensures
        match r {
            Some(j) => j < fs.len() && find_from(fs@, name@, 0) == Some(j as int),
            None => find_from(fs@, name@, 0) is None,
        },
{
    let target = chars_of(name.as_str());
    let mut i: usize = 0;
    while i < fs.len()
        invariant
            i <= fs.len(),
            target@ == name@,
            find_from(fs@, name@, 0) == find_from(fs@, name@, i as int),
        decreases fs.len() - i,
    {
        let candidate = chars_of(fs[i].name.as_str());
        if chars_eq_ignore_case(&candidate, &target) {
            return Some(i);
        }
        i += 1;
    }
    None
}

/// The completion of the function at position `i` of `fs`.
pub fn function_item_of(fs: &Vec<FunctionRecord>, i: usize) -> (r: CompletionItem)
    requires
        i < fs.len(),
    ensures
        r@ == function_item(fs@, fs@[i as int]),
{
    let f = &fs[i];
    let kind = if f.is_aggregate {
        CompletionKind::AggregateFunction
    } else {
        CompletionKind::Function
    };
    match &f.alias_to {
        Some(t) => {
            let mut doc = String::from_str("**");
            doc.append(f.name.as_str());
            doc.append("** _(alias for `");
            doc.append(t.as_str());
            doc.append("`)_");
            match find_function(fs, t) {
                Some(j) => {
                    let target_doc = plain_doc_of(&fs[j]);
                    add_section(&mut doc, &target_doc);
                },
                None => {},
            }
            CompletionItem {
                label: f.name.clone(),
                kind,
                detail: Some(joined("(alias for ", t, ")")),
                documentation: Some(doc),
                has_params: true,
                sort_key: banded("9_", &f.name),
            }
        },
        None => CompletionItem {
            label: f.name.clone(),
            kind,
            detail: Some(
                if f.is_aggregate {
                    String::from_str("(aggregate function)")
                } else {
                    String::from_str("(function)")
                },
            ),
            documentation: doc_if_nonempty(plain_doc_of(f)),
            has_params: true,
            sort_key: banded("1_", &f.name),
        },
    }
}

pub fn keyword_item_of(k: &str) -> (r: CompletionItem)
    ensures
        r@ == keyword_item(k@),
{
    let label = String::from_str(k);
    CompletionItem {
        label,
        kind: CompletionKind::Keyword,
        detail: Some(String::from_str("(keyword)")),
        documentation: None,
        has_params: false,
        sort_key: banded("0_", &String::from_str(k)),
    }
}

pub fn data_type_item_of(d: &DataTypeRecord) -> (r: CompletionItem)
    ensures
        r@ == data_type_item(*d),
{
    match &d.alias_to {
        Some(t) => CompletionItem {
            label: d.name.clone(),
            kind: CompletionKind::DataType,
            detail: Some(joined("(alias for ", t, ")")),
            documentation: None,
            has_params: false,
            sort_key: banded("9_", &d.name),
        },
        None => CompletionItem {
            label: d.name.clone(),
            kind: CompletionKind::DataType,
            detail: Some(String::from_str("(data type)")),
            documentation: None,
            has_params: false,
            sort_key: banded("2_", &d.name),
        },
    }
}

pub fn table_engine_item_of(e: &TableEngineRecord) -> (r: CompletionItem)
    ensures
        r@ == table_engine_item(*e),
{
    CompletionItem {
        label: e.name.clone(),
        kind: CompletionKind::TableEngine,
        detail: Some(String::from_str("(table engine)")),
        documentation: None,
        has_params: false,
        sort_key: banded("3_", &e.name),
    }
}

pub fn format_item_of(f: &FormatRecord) -> (r: CompletionItem)
    ensures
        r@ == format_item(*f),
{
    let detail = if f.is_input && f.is_output {
        String::from_str("(format: input/output)")
    } else if f.is_input {
        String::from_str("(format: input only)")
    } else if f.is_output {
        String::from_str("(format: output only)")
    } else {
        String::from_str("(format)")
    };
    CompletionItem {
        label: f.name.clone(),
        kind: CompletionKind::Format,
        detail: Some(detail),
        documentation: None,
        has_params: false,
        sort_key: banded("4_", &f.name),
    }
}

pub fn table_function_item_of(t: &TableFunctionRecord) -> (r: CompletionItem)
    ensures
        r@ == table_function_item(*t),
{
    CompletionItem {
        label: t.name.clone(),
        kind: CompletionKind::TableFunction,
        detail: Some(String::from_str("(table function)")),
        documentation: doc_if_nonempty(t.description.clone()),
        has_params: true,
        sort_key: banded("5_", &t.name),
    }
}

pub fn setting_item_of(s: &SettingRecord, merge_tree: bool) -> (r: CompletionItem)
    ensures
        r@ == setting_item(*s, merge_tree),
{
    let detail = if merge_tree {
        joined("(MergeTree setting: ", &s.value_type, ")")
    } else {
        joined("(setting: ", &s.value_type, ")")
    };
    CompletionItem {
        label: s.name.clone(),
        kind: CompletionKind::Setting,
        detail: Some(detail),
        documentation: doc_if_nonempty(s.description.clone()),
        has_params: false,
        sort_key: banded("6_", &s.name),
    }
}

} // verus!
