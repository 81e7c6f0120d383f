use vstd::prelude::*;

use crate::catalog::Catalog;
use crate::completion::{
    copy_item, data_type_item, data_type_item_of, format_item, format_item_of, function_item,
    function_item_of, keyword_item, keyword_item_of, setting_item, setting_item_of,
    table_engine_item, table_engine_item_of, table_function_item, table_function_item_of, views,
    CompletionItem, CompletionKind, ItemView,
};
use crate::context::{detect, detect_spec, SqlContext};

verus! {

/// The completion lists, one per category, and all of them together.
pub struct CompletionCache {
    pub all: Vec<CompletionItem>,
    pub functions: Vec<CompletionItem>,
    pub keywords: Vec<CompletionItem>,
    pub data_types: Vec<CompletionItem>,
    pub table_engines: Vec<CompletionItem>,
    pub formats: Vec<CompletionItem>,
    pub table_functions: Vec<CompletionItem>,
    pub settings: Vec<CompletionItem>,
    pub logical_operators: Vec<CompletionItem>,
    pub order_by_keywords: Vec<CompletionItem>,
}

pub struct CacheView {
    pub all: Seq<ItemView>,
    pub functions: Seq<ItemView>,
    pub keywords: Seq<ItemView>,
    pub data_types: Seq<ItemView>,
    pub table_engines: Seq<ItemView>,
    pub formats: Seq<ItemView>,
    pub table_functions: Seq<ItemView>,
    pub settings: Seq<ItemView>,
    pub logical_operators: Seq<ItemView>,
    pub order_by_keywords: Seq<ItemView>,
}

impl View for CompletionCache {
    type V = CacheView;

    open spec fn view(&self) -> CacheView {
        CacheView {
            all: views(self.all@),
            functions: views(self.functions@),
            keywords: views(self.keywords@),
            data_types: views(self.data_types@),
            table_engines: views(self.table_engines@),
            formats: views(self.formats@),
            table_functions: views(self.table_functions@),
            settings: views(self.settings@),
            logical_operators: views(self.logical_operators@),
            order_by_keywords: views(self.order_by_keywords@),
        }
    }
}

pub open spec fn logical_operator_items() -> Seq<ItemView> {
    seq![
        keyword_item("AND"@),
        keyword_item("OR"@),
        keyword_item("NOT"@),
        keyword_item("IN"@),
        keyword_item("BETWEEN"@),
        keyword_item("LIKE"@),
        keyword_item("IS NULL"@),
        keyword_item("IS NOT NULL"@),
    ]
}

pub open spec fn order_by_items() -> Seq<ItemView> {
    seq![
        keyword_item("ASC"@),
        keyword_item("DESC"@),
        keyword_item("NULLS FIRST"@),
        keyword_item("NULLS LAST"@),
    ]
}

/// The settings list: ordinary settings, then MergeTree settings.
pub open spec fn settings_items(c: Catalog) -> Seq<ItemView> {
    Seq::new(c.settings.len() as nat, |i: int| setting_item(c.settings@[i], false)) + Seq::new(
        c.merge_tree_settings.len() as nat,
        |i: int| setting_item(c.merge_tree_settings@[i], true),
    )
}

/// The cache built from a catalog.
pub open spec fn cache_of(c: Catalog) -> CacheView {
    let functions = Seq::new(
        c.functions.len() as nat,
        |i: int| function_item(c.functions@, c.functions@[i]),
    );
    let keywords = Seq::new(c.keywords.len() as nat, |i: int| keyword_item(c.keywords@[i]@));
    let data_types = Seq::new(c.data_types.len() as nat, |i: int| data_type_item(c.data_types@[i]));
    let table_engines = Seq::new(
        c.table_engines.len() as nat,
        |i: int| table_engine_item(c.table_engines@[i]),
    );
    let formats = Seq::new(c.formats.len() as nat, |i: int| format_item(c.formats@[i]));
    let table_functions = Seq::new(
        c.table_functions.len() as nat,
        |i: int| table_function_item(c.table_functions@[i]),
    );
    let settings = settings_items(c);
    CacheView {
        all: functions + keywords + data_types + table_engines + formats + table_functions
            + settings,
        functions,
        keywords,
        data_types,
        table_engines,
        formats,
        table_functions,
        settings,
        logical_operators: logical_operator_items(),
        order_by_keywords: order_by_items(),
    }
}

/// The list offered in a context.
pub open spec fn dispatch_spec(ctx: SqlContext, c: CacheView) -> Seq<ItemView> {
    match ctx {
        SqlContext::Engine => c.table_engines,
        SqlContext::Format => c.formats,
        SqlContext::WhereClause => c.functions + c.logical_operators,
        SqlContext::OrderByClause => c.functions + c.order_by_keywords,
        SqlContext::SelectClause => c.functions,
        SqlContext::FromClause => c.table_functions,
        SqlContext::ColumnDefinition => c.data_types,
        SqlContext::Settings => c.settings,
        SqlContext::Default => c.all,
    }
}

/// `a` comes before `b` when characters are compared by their codes.
pub open spec fn lex_lt(a: Seq<char>, b: Seq<char>) -> bool {
    ||| exists|i: int|
        0 <= i < a.len() && i < b.len() && #[trigger] a.subrange(0, i) == b.subrange(0, i) && (
        a[i] as u32) < (b[i] as u32)
    ||| (a.len() < b.len() && b.subrange(0, a.len() as int) == a)
}

/// Every item the cache of `c` holds, in any of its lists.
pub open spec fn cache_items(c: Catalog) -> Seq<ItemView> {
    cache_of(c).all + cache_of(c).logical_operators + cache_of(c).order_by_keywords
}

/// A keyword's sort key begins with `0`, a setting's with `6`.
pub open spec fn band_ok(x: ItemView) -> bool {
    &&& x.kind == CompletionKind::Keyword ==> x.sort_key.len() > 0 && x.sort_key[0] == '0'
    &&& x.kind == CompletionKind::Setting ==> x.sort_key.len() > 0 && x.sort_key[0] == '6'
}

pub open spec fn all_bands_ok(s: Seq<ItemView>) -> bool {
    forall|i: int| 0 <= i < s.len() ==> band_ok(#[trigger] s[i])
}

proof fn lemma_bands_concat(a: Seq<ItemView>, b: Seq<ItemView>)
    requires
        all_bands_ok(a),
        all_bands_ok(b),
    ensures
        all_bands_ok(a + b),
{
    assert forall|i: int| 0 <= i < (a + b).len() implies band_ok(#[trigger] (a + b)[i]) by {
        if i < a.len() {
            assert((a + b)[i] == a[i]);
        } else {
            assert((a + b)[i] == b[i - a.len()]);
        }
    }
}

proof fn lemma_keyword_band(k: Seq<char>)
    ensures
        band_ok(keyword_item(k)),
{
    reveal_strlit("0_");
}

proof fn lemma_cache_bands(c: Catalog)
    ensures
        all_bands_ok(cache_items(c)),
{
    let v = cache_of(c);
    reveal_strlit("0_");
    reveal_strlit("6_");
    assert forall|i: int| 0 <= i < v.keywords.len() implies band_ok(#[trigger] v.keywords[i]) by {
        lemma_keyword_band(c.keywords@[i]@);
    }
    assert(all_bands_ok(v.functions));
    assert(all_bands_ok(v.data_types));
    assert(all_bands_ok(v.table_engines));
    assert(all_bands_ok(v.formats));
    assert(all_bands_ok(v.table_functions));
    let st = Seq::new(c.settings.len() as nat, |i: int| setting_item(c.settings@[i], false));
    let mt = Seq::new(
        c.merge_tree_settings.len() as nat,
        |i: int| setting_item(c.merge_tree_settings@[i], true),
    );
    assert(all_bands_ok(st));
    assert(all_bands_ok(mt));
    lemma_bands_concat(st, mt);
    assert(v.settings == st + mt);
    lemma_bands_concat(v.functions, v.keywords);
    lemma_bands_concat(v.functions + v.keywords, v.data_types);
    lemma_bands_concat(v.functions + v.keywords + v.data_types, v.table_engines);
    lemma_bands_concat(v.functions + v.keywords + v.data_types + v.table_engines, v.formats);
    lemma_bands_concat(
        v.functions + v.keywords + v.data_types + v.table_engines + v.formats,
        v.table_functions,
    );
    lemma_bands_concat(
        v.functions + v.keywords + v.data_types + v.table_engines + v.formats + v.table_functions,
        v.settings,
    );
    assert forall|i: int| 0 <= i < v.logical_operators.len() implies band_ok(
        #[trigger] v.logical_operators[i],
    ) by {
        lemma_keyword_band("AND"@);
        lemma_keyword_band("OR"@);
        lemma_keyword_band("NOT"@);
        lemma_keyword_band("IN"@);
        lemma_keyword_band("BETWEEN"@);
        lemma_keyword_band("LIKE"@);
        lemma_keyword_band("IS NULL"@);
        lemma_keyword_band("IS NOT NULL"@);
    }
    assert forall|i: int| 0 <= i < v.order_by_keywords.len() implies band_ok(
        #[trigger] v.order_by_keywords[i],
    ) by {
        lemma_keyword_band("ASC"@);
        lemma_keyword_band("DESC"@);
        lemma_keyword_band("NULLS FIRST"@);
        lemma_keyword_band("NULLS LAST"@);
    }
    lemma_bands_concat(v.all, v.logical_operators);
    lemma_bands_concat(v.all + v.logical_operators, v.order_by_keywords);
}

/// Of any two items of the lists built from a catalog, where one is a keyword
/// and the other a setting, the keyword's sort key comes first.
pub proof fn lemma_keyword_before_setting(c: Catalog, x: ItemView, y: ItemView)
    requires
        cache_items(c).contains(x),
        cache_items(c).contains(y),
        x.kind == CompletionKind::Keyword,
        y.kind == CompletionKind::Setting,
    ensures
        lex_lt(x.sort_key, y.sort_key),
{
    lemma_cache_bands(c);
    let items = cache_items(c);
    let i = choose|i: int| 0 <= i < items.len() && items[i] == x;
    let j = choose|j: int| 0 <= j < items.len() && items[j] == y;
    assert(band_ok(items[i]));
    assert(band_ok(items[j]));
    assert(x.sort_key.subrange(0, 0) =~= y.sort_key.subrange(0, 0));
}

/// Whether an attempt to build succeeds on a cache in state `state`.
pub open spec fn init_accepts(state: Option<CacheView>) -> bool {
    state is None
}

/// Building twice from the same catalog: the second attempt is refused and the
/// lists that dispatch shows are those of the first build.
pub proof fn lemma_second_build_rejected(c: Catalog)
    ensures
        init_accepts(None),
        !init_accepts(after_init(None, c)),
        after_init(after_init(None, c), c) == after_init(None, c),
        forall|ctx: SqlContext|
            #[trigger] dispatch_spec(ctx, after_init(after_init(None, c), c)->0) == dispatch_spec(
                ctx,
                cache_of(c),
            ),
{
}

/// Appends copies of the items of `src` to `dst`.
fn append_copies(dst: &mut Vec<CompletionItem>, src: &Vec<CompletionItem>)
    ensures
        views(final(dst)@) == views(old(dst)@) + views(src@),
{
    let ghost start = views(dst@);
    let mut i: usize = 0;
    while i < src.len()
        invariant
            i <= src.len(),
            views(dst@) == start + views(src@).subrange(0, i as int),
        decreases src.len() - i,
    {
        let ghost before = dst@;
        dst.push(copy_item(&src[i]));
        assert(views(dst@) =~= views(before).push(src@[i as int]@));
        assert(views(src@).subrange(0, i + 1) =~= views(src@).subrange(0, i as int).push(
            src@[i as int]@,
        ));
        i += 1;
    }
    assert(views(src@).subrange(0, src.len() as int) =~= views(src@));
}

fn function_items(c: &Catalog) -> (r: Vec<CompletionItem>)
    ensures
        views(r@) == cache_of(*c).functions,
{
    let mut r: Vec<CompletionItem> = Vec::new();
    let mut i: usize = 0;
    while i < c.functions.len()
        invariant
            i <= c.functions.len(),
            r.len() == i,
            forall|j: int| 0 <= j < i ==> #[trigger] r@[j]@ == function_item(c.functions@, c.functions@[j]),
        decreases c.functions.len() - i,
    {
        r.push(function_item_of(&c.functions, i));
        i += 1;
    }
    assert(views(r@) =~= cache_of(*c).functions);
    r
}

fn keyword_items(c: &Catalog) -> (r: Vec<CompletionItem>)
    ensures
        views(r@) == cache_of(*c).keywords,
{
    let mut r: Vec<CompletionItem> = Vec::new();
    let mut i: usize = 0;
    while i < c.keywords.len()
        invariant
            i <= c.keywords.len(),
            r.len() == i,
            forall|j: int| 0 <= j < i ==> #[trigger] r@[j]@ == keyword_item(c.keywords@[j]@),
        decreases c.keywords.len() - i,
    {
        r.push(keyword_item_of(c.keywords[i].as_str()));
        i += 1;
    }
    assert(views(r@) =~= cache_of(*c).keywords);
    r
}

fn data_type_items(c: &Catalog) -> (r: Vec<CompletionItem>)
    ensures
        views(r@) == cache_of(*c).data_types,
{
    let mut r: Vec<CompletionItem> = Vec::new();
    let mut i: usize = 0;
    while i < c.data_types.len()
        invariant
            i <= c.data_types.len(),
            r.len() == i,
            forall|j: int| 0 <= j < i ==> #[trigger] r@[j]@ == data_type_item(c.data_types@[j]),
        decreases c.data_types.len() - i,
    {
        r.push(data_type_item_of(&c.data_types[i]));
        i += 1;
    }
    assert(views(r@) =~= cache_of(*c).data_types);
    r
}

fn table_engine_items(c: &Catalog) -> (r: Vec<CompletionItem>)
    ensures
        views(r@) == cache_of(*c).table_engines,
{
    let mut r: Vec<CompletionItem> = Vec::new();
    let mut i: usize = 0;
    while i < c.table_engines.len()
        invariant
            i <= c.table_engines.len(),
            r.len() == i,
            forall|j: int| 0 <= j < i ==> #[trigger] r@[j]@ == table_engine_item(c.table_engines@[j]),
        decreases c.table_engines.len() - i,
    {
        r.push(table_engine_item_of(&c.table_engines[i]));
        i += 1;
    }
    assert(views(r@) =~= cache_of(*c).table_engines);
    r
}

fn format_items(c: &Catalog) -> (r: Vec<CompletionItem>)
    ensures
        views(r@) == cache_of(*c).formats,
{
    let mut r: Vec<CompletionItem> = Vec::new();
    let mut i: usize = 0;
    while i < c.formats.len()
        invariant
            i <= c.formats.len(),
            r.len() == i,
            forall|j: int| 0 <= j < i ==> #[trigger] r@[j]@ == format_item(c.formats@[j]),
        decreases c.formats.len() - i,
    {
        r.push(format_item_of(&c.formats[i]));
        i += 1;
    }
    assert(views(r@) =~= cache_of(*c).formats);
    r
}

fn table_function_items(c: &Catalog) -> (r: Vec<CompletionItem>)
    ensures
        views(r@) == cache_of(*c).table_functions,
{
    let mut r: Vec<CompletionItem> = Vec::new();
    let mut i: usize = 0;
    while i < c.table_functions.len()
        invariant
            i <= c.table_functions.len(),
            r.len() == i,
            forall|j: int|
                0 <= j < i ==> #[trigger] r@[j]@ == table_function_item(c.table_functions@[j]),
        decreases c.table_functions.len() - i,
    {
        r.push(table_function_item_of(&c.table_functions[i]));
        i += 1;
    }
    assert(views(r@) =~= cache_of(*c).table_functions);
    r
}

fn setting_items(c: &Catalog) -> (r: Vec<CompletionItem>)
    ensures
        views(r@) == cache_of(*c).settings,
{
    let mut r: Vec<CompletionItem> = Vec::new();
    let mut i: usize = 0;
    while i < c.settings.len()
        invariant
            i <= c.settings.len(),
            r.len() == i,
            forall|j: int| 0 <= j < i ==> #[trigger] r@[j]@ == setting_item(c.settings@[j], false),
        decreases c.settings.len() - i,
    {
        r.push(setting_item_of(&c.settings[i], false));
        i += 1;
    }
    let n = r.len();
    let mut k: usize = 0;
    while k < c.merge_tree_settings.len()
        invariant
            k <= c.merge_tree_settings.len(),
            n == c.settings.len(),
            r.len() == n + k,
            forall|j: int| 0 <= j < n ==> #[trigger] r@[j]@ == setting_item(c.settings@[j], false),
            forall|j: int|
                n <= j < n + k ==> #[trigger] r@[j]@ == setting_item(
                    c.merge_tree_settings@[j - n],
                    true,
                ),
        decreases c.merge_tree_settings.len() - k,
    {
        r.push(setting_item_of(&c.merge_tree_settings[k], true));
        k += 1;
    }
    assert(views(r@) =~= cache_of(*c).settings);
    r
}

fn logical_operators() -> (r: Vec<CompletionItem>)
    ensures
        views(r@) == logical_operator_items(),
{
    let mut r: Vec<CompletionItem> = Vec::new();
    r.push(keyword_item_of("AND"));
    r.push(keyword_item_of("OR"));
    r.push(keyword_item_of("NOT"));
    r.push(keyword_item_of("IN"));
    r.push(keyword_item_of("BETWEEN"));
    r.push(keyword_item_of("LIKE"));
    r.push(keyword_item_of("IS NULL"));
    r.push(keyword_item_of("IS NOT NULL"));
    assert(views(r@) =~= logical_operator_items());
    r
}

fn order_by_keywords() -> (r: Vec<CompletionItem>)
    ensures
        views(r@) == order_by_items(),
{
    let mut r: Vec<CompletionItem> = Vec::new();
    r.push(keyword_item_of("ASC"));
    r.push(keyword_item_of("DESC"));
    r.push(keyword_item_of("NULLS FIRST"));
    r.push(keyword_item_of("NULLS LAST"));
    assert(views(r@) =~= order_by_items());
    r
}

/// Builds every completion list of a catalog.
pub fn build(catalog: &Catalog) -> (r: CompletionCache)
    ensures
        r@ == cache_of(*catalog),
{
    let functions = function_items(catalog);
    let keywords = keyword_items(catalog);
    let data_types = data_type_items(catalog);
    let table_engines = table_engine_items(catalog);
    let formats = format_items(catalog);
    let table_functions = table_function_items(catalog);
    let settings = setting_items(catalog);
    let mut all: Vec<CompletionItem> = Vec::new();
    append_copies(&mut all, &functions);
    append_copies(&mut all, &keywords);
    append_copies(&mut all, &data_types);
    append_copies(&mut all, &table_engines);
    append_copies(&mut all, &formats);
    append_copies(&mut all, &table_functions);
    append_copies(&mut all, &settings);
    assert(views(all@) =~= cache_of(*catalog).all);
    CompletionCache {
        all,
        functions,
        keywords,
        data_types,
        table_engines,
        formats,
        table_functions,
        settings,
        logical_operators: logical_operators(),
        order_by_keywords: order_by_keywords(),
    }
}

/// Copies of the items offered in context `ctx`, in display order.
pub fn dispatch(ctx: SqlContext, cache: &CompletionCache) -> (r: Vec<CompletionItem>)
    ensures
        views(r@) == dispatch_spec(ctx, cache@),
{
    let mut r: Vec<CompletionItem> = Vec::new();
    match ctx {
        SqlContext::Engine => append_copies(&mut r, &cache.table_engines),
        SqlContext::Format => append_copies(&mut r, &cache.formats),
        SqlContext::WhereClause => {
            append_copies(&mut r, &cache.functions);
            append_copies(&mut r, &cache.logical_operators);
        },
        SqlContext::OrderByClause => {
            append_copies(&mut r, &cache.functions);
            append_copies(&mut r, &cache.order_by_keywords);
        },
        SqlContext::SelectClause => append_copies(&mut r, &cache.functions),
        SqlContext::FromClause => append_copies(&mut r, &cache.table_functions),
        SqlContext::ColumnDefinition => append_copies(&mut r, &cache.data_types),
        SqlContext::Settings => append_copies(&mut r, &cache.settings),
        SqlContext::Default => append_copies(&mut r, &cache.all),
    }
    assert(views(r@) =~= dispatch_spec(ctx, cache@));
    r
}

/// Why a catalog was not taken.
#[derive(Clone, Copy, Debug, PartialEq, Eq, Structural)]
pub enum InitError {
    /// The cache was built before; it is kept as it was.
    AlreadyInitialized,
}

/// The cache after an attempt to build it from `c`: the first build stays.
pub open spec fn after_init(state: Option<CacheView>, c: Catalog) -> Option<CacheView> {
    match state {
        Some(v) => Some(v),
        None => Some(cache_of(c)),
    }
}

/// A write-once holder of the completion cache.
pub struct CompletionStore {
    cache: Option<CompletionCache>,
}

impl View for CompletionStore {
    type V = Option<CacheView>;

    closed spec fn view(&self) -> Option<CacheView> {
        match self.cache {
            Some(c) => Some(c@),
            None => None,
        }
    }
}

impl CompletionStore {
    /// A store whose cache is not built yet.
    pub fn new() -> (r: CompletionStore)
        ensures
            r@ is None,
    {
        CompletionStore { cache: None }
    }

    /// Builds the cache from `catalog`, unless it was built before.
    pub fn init(&mut self, catalog: &Catalog) -> (r: Result<(), InitError>)
        ensures
            final(self)@ == after_init(old(self)@, *catalog),
            r is Ok <==> init_accepts(old(self)@),
            r is Err ==> r == Err::<(), InitError>(InitError::AlreadyInitialized),
    {
        if self.cache.is_some() {
            Err(InitError::AlreadyInitialized)
        } else {
            self.cache = Some(build(catalog));
            Ok(())
        }
    }

    /// Whether the cache was built.
    pub fn is_initialized(&self) -> (r: bool)
        ensures
            r == self@ is Some,
    {
        self.cache.is_some()
    }

    /// The completions offered at character offset `cursor_offset` of `text`:
    /// none while the cache is not built.
    pub fn completions(&self, text: &str, cursor_offset: usize) -> (r: Vec<CompletionItem>)
        ensures
            match self@ {
                None => r@.len() == 0,
                Some(c) => views(r@) == dispatch_spec(detect_spec(text@, cursor_offset as int), c),
            },
    {
        match &self.cache {
            None => Vec::new(),
            Some(c) => dispatch(detect(text, cursor_offset), c),
        }
    }
}

} // verus!
