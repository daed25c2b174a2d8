//! The read-only query layer: the SQL text and the bound values of every query
//! the viewer runs, and the rendering of SQLite values as display text.
//!
//! Every statement built here is a `SELECT`; identifiers are always quoted
//! and search terms are always bound as values, never spliced into the text.
use vstd::prelude::*;
use vstd::string::*;
use vstd::utf8::*;

use crate::text::{decimal, push_char, push_decimal, push_signed, signed_decimal};

verus! {

/// A single column of a table: its name and its declared type (empty when
/// the column was declared without one, as in most views).
#[derive(Debug, Clone)]
pub struct Column {
    pub name: String,
    pub declared_type: String,
}

/// A value bound to a `?` placeholder.
#[derive(Debug, Clone)]
pub enum SqlValue {
    Text(String),
    Integer(i64),
}

/// The mathematical value of a bound value.
pub enum SqlValueView {
    Text(Seq<char>),
    Integer(int),
}

impl View for SqlValue {
    type V = SqlValueView;

    open spec fn view(&self) -> SqlValueView {
        match self {
            SqlValue::Text(s) => SqlValueView::Text(s@),
            SqlValue::Integer(i) => SqlValueView::Integer(*i as int),
        }
    }
}

/// A statement with the values for its placeholders, in placeholder order.
#[derive(Debug, Clone)]
pub struct SqlQuery {
    pub sql: String,
    pub params: Vec<SqlValue>,
}

/// The mathematical value of a statement.
pub struct SqlQueryView {
    pub sql: Seq<char>,
    pub params: Seq<SqlValueView>,
}

impl View for SqlQuery {
    type V = SqlQueryView;

    open spec fn view(&self) -> SqlQueryView {
        SqlQueryView { sql: self.sql@, params: self.params@.map_values(|v: SqlValue| v@) }
    }
}

/// The sort of a window of rows: a column and a direction.
#[derive(Debug, Clone)]
pub struct SortKey {
    pub column: String,
    pub ascending: bool,
}

/// A window of `limit` rows of `table` starting at `offset`, in natural order
/// or ordered by a column.
#[derive(Debug, Clone)]
pub struct WindowQuery {
    pub table: String,
    pub sort: Option<SortKey>,
    pub offset: i64,
    pub limit: i64,
}

/// A SQLite value as the viewer displays it. Floating-point values are
/// rendered by the caller.
#[derive(Debug, Clone)]
pub enum CellValue {
    Null,
    Integer(i64),
    Text(Vec<u8>),
    Blob(Vec<u8>),
}

// ---------------------------------------------------------------------------
// Specifications
// ---------------------------------------------------------------------------

/// A character of an identifier inside double quotes: `"` is doubled.
pub open spec fn quote_char(c: char) -> Seq<char> {
    if c == '"' {
        seq!['"', '"']
    } else {
        seq![c]
    }
}

/// The characters of an identifier with every `"` doubled.
pub open spec fn escape_quotes(s: Seq<char>) -> Seq<char>
    decreases s.len(),
{
    if s.len() == 0 {
        seq![]
    } else {
        escape_quotes(s.drop_last()) + quote_char(s.last())
    }
}

/// An identifier quoted for SQL: `"` + the name with `"` doubled + `"`.
pub open spec fn quoted(s: Seq<char>) -> Seq<char> {
    seq!['"'] + escape_quotes(s) + seq!['"']
}

/// A character of a search term inside a `LIKE` pattern: the wildcards `%`
/// and `_` and the escape character `\` are preceded by `\`.
pub open spec fn like_char(c: char) -> Seq<char> {
    if c == '%' || c == '_' || c == '\\' {
        seq!['\\', c]
    } else {
        seq![c]
    }
}

/// The characters of a search term with every wildcard escaped.
pub open spec fn escape_like(s: Seq<char>) -> Seq<char>
    decreases s.len(),
{
    if s.len() == 0 {
        seq![]
    } else {
        escape_like(s.drop_last()) + like_char(s.last())
    }
}

/// The `LIKE` pattern that matches every text containing `term` literally.
pub open spec fn like_pattern_spec(term: Seq<char>) -> Seq<char> {
    seq!['%'] + escape_like(term) + seq!['%']
}

/// The direction keyword of a sort.
pub open spec fn direction(ascending: bool) -> Seq<char> {
    if ascending {
        "ASC"@
    } else {
        "DESC"@
    }
}

/// The condition that one column contains the bound pattern.
pub open spec fn like_clause(name: Seq<char>) -> Seq<char> {
    quoted(name) + " LIKE ? ESCAPE '\\'"@
}

/// `col LIKE ? ESCAPE '\' OR col LIKE ? ...` over every column, in order.
pub open spec fn like_condition_spec(names: Seq<Seq<char>>) -> Seq<char>
    decreases names.len(),
{
    if names.len() == 0 {
        seq![]
    } else if names.len() == 1 {
        like_clause(names[0])
    } else {
        like_condition_spec(names.drop_last()) + " OR "@ + like_clause(names.last())
    }
}

pub open spec fn count_sql(table: Seq<char>) -> Seq<char> {
    "SELECT count(*) FROM "@ + quoted(table)
}

pub open spec fn window_sql(table: Seq<char>) -> Seq<char> {
    "SELECT * FROM "@ + quoted(table) + " LIMIT ?1 OFFSET ?2"@
}

pub open spec fn sorted_window_sql(table: Seq<char>, column: Seq<char>, ascending: bool) -> Seq<
    char,
> {
    "SELECT * FROM "@ + quoted(table) + " ORDER BY "@ + quoted(column) + " "@ + direction(
        ascending,
    ) + " LIMIT ?1 OFFSET ?2"@
}

pub open spec fn filtered_count_sql(table: Seq<char>, condition: Seq<char>) -> Seq<char> {
    "SELECT count(*) FROM "@ + quoted(table) + " WHERE "@ + condition
}

/// The `LIMIT`/`OFFSET` tail after `n` bound patterns.
pub open spec fn paging_tail(n: nat) -> Seq<char> {
    " LIMIT ?"@ + decimal(n + 1) + " OFFSET ?"@ + decimal(n + 2)
}

pub open spec fn filtered_window_sql(table: Seq<char>, condition: Seq<char>, n: nat) -> Seq<char> {
    "SELECT * FROM "@ + quoted(table) + " WHERE "@ + condition + paging_tail(n)
}

pub open spec fn filtered_sorted_window_sql(
    table: Seq<char>,
    condition: Seq<char>,
    column: Seq<char>,
    ascending: bool,
    n: nat,
) -> Seq<char> {
    "SELECT * FROM "@ + quoted(table) + " WHERE "@ + condition + " ORDER BY "@ + quoted(column)
        + " "@ + direction(ascending) + paging_tail(n)
}

/// The names of a list of columns.
pub open spec fn names_of(columns: Seq<String>) -> Seq<Seq<char>> {
    columns.map_values(|c: String| c@)
}

/// `n` copies of the bound search pattern.
pub open spec fn patterns(term: Seq<char>, n: nat) -> Seq<SqlValueView> {
    Seq::new(n, |i: int| SqlValueView::Text(like_pattern_spec(term)))
}

/// The values of a `LIMIT ?1 OFFSET ?2` window.
pub open spec fn paging(offset: i64, limit: i64) -> Seq<SqlValueView> {
    seq![SqlValueView::Integer(limit as int), SqlValueView::Integer(offset as int)]
}

pub open spec fn row_count_plan(table: Seq<char>) -> SqlQueryView {
    SqlQueryView { sql: count_sql(table), params: seq![] }
}

pub open spec fn rows_plan(table: Seq<char>, offset: i64, limit: i64) -> SqlQueryView {
    SqlQueryView { sql: window_sql(table), params: paging(offset, limit) }
}

pub open spec fn rows_sorted_plan(
    table: Seq<char>,
    column: Seq<char>,
    ascending: bool,
    offset: i64,
    limit: i64,
) -> SqlQueryView {
    SqlQueryView { sql: sorted_window_sql(table, column, ascending), params: paging(offset, limit) }
}

/// How many rows contain `term`: an unfiltered count when the term is empty
/// or the table has no columns.
pub open spec fn search_count_plan(
    table: Seq<char>,
    term: Seq<char>,
    columns: Seq<Seq<char>>,
) -> SqlQueryView {
    if term.len() == 0 || columns.len() == 0 {
        row_count_plan(table)
    } else {
        SqlQueryView {
            sql: filtered_count_sql(table, like_condition_spec(columns)),
            params: patterns(term, columns.len()),
        }
    }
}

/// A window of the rows that contain `term`, in natural order.
pub open spec fn search_rows_plan(
    table: Seq<char>,
    term: Seq<char>,
    columns: Seq<Seq<char>>,
    offset: i64,
    limit: i64,
) -> SqlQueryView {
    if columns.len() == 0 || term.len() == 0 {
        rows_plan(table, offset, limit)
    } else {
        SqlQueryView {
            sql: filtered_window_sql(table, like_condition_spec(columns), columns.len()),
            params: patterns(term, columns.len()) + paging(offset, limit),
        }
    }
}

/// A window of the rows that contain `term`, ordered by one column.
pub open spec fn search_rows_sorted_plan(
    table: Seq<char>,
    term: Seq<char>,
    columns: Seq<Seq<char>>,
    column: Seq<char>,
    ascending: bool,
    offset: i64,
    limit: i64,
) -> SqlQueryView {
    if columns.len() == 0 || term.len() == 0 {
        rows_sorted_plan(table, column, ascending, offset, limit)
    } else {
        SqlQueryView {
            sql: filtered_sorted_window_sql(
                table,
                like_condition_spec(columns),
                column,
                ascending,
                columns.len(),
            ),
            params: patterns(term, columns.len()) + paging(offset, limit),
        }
    }
}

/// The statement of a window of rows.
pub open spec fn window_plan(q: WindowQuery) -> SqlQueryView {
    match q.sort {
        None => rows_plan(q.table@, q.offset, q.limit),
        Some(k) => rows_sorted_plan(q.table@, k.column@, k.ascending, q.offset, q.limit),
    }
}

/// Whether a statement is a read: it starts with `SELECT `.
pub open spec fn is_select(sql: Seq<char>) -> bool {
    sql.len() >= 7 && sql.take(7) == "SELECT "@
}

/// What `String::from_utf8_lossy` makes of a byte string.
pub uninterp spec fn lossy_utf8(bytes: Seq<u8>) -> Seq<char>;

/// The display text of a value.
pub open spec fn cell_text_spec(v: CellValue) -> Seq<char> {
    match v {
        CellValue::Null => "NULL"@,
        CellValue::Integer(i) => signed_decimal(i as int),
        CellValue::Text(t) => lossy_utf8(t@),
        CellValue::Blob(b) => "<"@ + decimal(b@.len()) + " bytes>"@,
    }
}

// ---------------------------------------------------------------------------
// Laws
// ---------------------------------------------------------------------------

/// Reading a quoted identifier's inner text back: `""` stands for `"`.
pub open spec fn unescape_quotes(t: Seq<char>) -> Seq<char>
    decreases t.len(),
{
    if t.len() == 0 {
        seq![]
    } else if t.last() == '"' && t.len() >= 2 {
        unescape_quotes(t.drop_last().drop_last()).push('"')
    } else {
        unescape_quotes(t.drop_last()).push(t.last())
    }
}

/// Reading an escaped search term back: `\` followed by a wildcard or `\`
/// stands for that character.
pub open spec fn unescape_like(t: Seq<char>) -> Seq<char>
    decreases t.len(),
{
    if t.len() == 0 {
        seq![]
    } else if (t.last() == '%' || t.last() == '_' || t.last() == '\\') && t.len() >= 2 {
        unescape_like(t.drop_last().drop_last()).push(t.last())
    } else {
        unescape_like(t.drop_last()).push(t.last())
    }
}

proof fn lemma_unescape_quotes(s: Seq<char>)
    ensures
        unescape_quotes(escape_quotes(s)) == s,
    decreases s.len(),
{
    if s.len() > 0 {
        let r = s.drop_last();
        let c = s.last();
        lemma_unescape_quotes(r);
        let e = escape_quotes(s);
        assert(e == escape_quotes(r) + quote_char(c));
        if c == '"' {
            assert(e.drop_last().drop_last() =~= escape_quotes(r));
        } else {
            assert(e.drop_last() =~= escape_quotes(r));
        }
        assert(r.push(c) =~= s);
    }
}

proof fn lemma_unescape_like(s: Seq<char>)
    ensures
        unescape_like(escape_like(s)) == s,
    decreases s.len(),
{
    if s.len() > 0 {
        let r = s.drop_last();
        let c = s.last();
        lemma_unescape_like(r);
        let e = escape_like(s);
        assert(e == escape_like(r) + like_char(c));
        if c == '%' || c == '_' || c == '\\' {
            assert(e.drop_last().drop_last() =~= escape_like(r));
        } else {
            assert(e.drop_last() =~= escape_like(r));
        }
        assert(r.push(c) =~= s);
    }
}

/// A quoted identifier gives back the name it quotes: every `"` inside is
/// doubled and nothing else changes.
pub proof fn law_quote_round_trip(name: Seq<char>)
    ensures
        ({
            let q = quoted(name);
            &&& q.len() >= 2
            &&& q[0] == '"'
            &&& q.last() == '"'
            &&& unescape_quotes(q.subrange(1, q.len() - 1)) == name
        }),
{
    let q = quoted(name);
    assert(q.subrange(1, q.len() - 1) =~= escape_quotes(name));
    lemma_unescape_quotes(name);
}

/// Distinct names quote to distinct identifiers, so a quoted name can only
/// ever denote the table or column it names.
pub proof fn law_quote_ident_injective(a: Seq<char>, b: Seq<char>)
    requires
        quoted(a) == quoted(b),
    ensures
        a == b,
{
    law_quote_round_trip(a);
    law_quote_round_trip(b);
}

/// A search pattern gives back its term: the wildcards and the escape
/// character are escaped, nothing else changes.
pub proof fn law_like_round_trip(term: Seq<char>)
    ensures
        ({
            let p = like_pattern_spec(term);
            &&& p.len() >= 2
            &&& p[0] == '%'
            &&& p.last() == '%'
            &&& unescape_like(p.subrange(1, p.len() - 1)) == term
        }),
{
    let p = like_pattern_spec(term);
    assert(p.subrange(1, p.len() - 1) =~= escape_like(term));
    lemma_unescape_like(term);
}

/// Distinct terms give distinct patterns.
pub proof fn law_like_pattern_injective(a: Seq<char>, b: Seq<char>)
    requires
        like_pattern_spec(a) == like_pattern_spec(b),
    ensures
        a == b,
{
    law_like_round_trip(a);
    law_like_round_trip(b);
}

/// The sort clause of a statement: ` ORDER BY "column" ASC` or `... DESC`.
pub open spec fn order_clause(column: Seq<char>, ascending: bool) -> Seq<char> {
    " ORDER BY "@ + quoted(column) + " "@ + direction(ascending)
}

/// An empty search term mirrors the unfiltered view: the count counts every
/// row, and the windows are the plain ones, still sorted when a sort is on.
pub proof fn law_empty_term_mirrors_unfiltered(
    table: Seq<char>,
    columns: Seq<Seq<char>>,
    column: Seq<char>,
    ascending: bool,
    offset: i64,
    limit: i64,
)
    ensures
        search_count_plan(table, seq![], columns).sql == "SELECT count(*) FROM "@ + quoted(table),
        search_count_plan(table, seq![], columns).params.len() == 0,
        search_rows_plan(table, seq![], columns, offset, limit).sql == "SELECT * FROM "@ + quoted(
            table,
        ) + " LIMIT ?1 OFFSET ?2"@,
        search_rows_sorted_plan(table, seq![], columns, column, ascending, offset, limit).sql
            == "SELECT * FROM "@ + quoted(table) + " ORDER BY "@ + quoted(column) + " "@
            + direction(ascending) + " LIMIT ?1 OFFSET ?2"@,
        search_rows_plan(table, seq![], columns, offset, limit).params == seq![
            SqlValueView::Integer(limit as int),
            SqlValueView::Integer(offset as int),
        ],
        search_rows_sorted_plan(table, seq![], columns, column, ascending, offset, limit).params
            == seq![SqlValueView::Integer(limit as int), SqlValueView::Integer(offset as int)],
        search_rows_sorted_plan(table, seq![], columns, column, ascending, offset, limit)
            == rows_sorted_plan(table, column, ascending, offset, limit),
{
}

/// Every sorted search, filtered or not, orders its rows: the statement holds
/// ` ORDER BY "column"` and the direction asked for.
pub proof fn law_sorted_search_keeps_order(
    table: Seq<char>,
    term: Seq<char>,
    columns: Seq<Seq<char>>,
    column: Seq<char>,
    ascending: bool,
    offset: i64,
    limit: i64,
)
    ensures
        ({
            let sql = search_rows_sorted_plan(
                table,
                term,
                columns,
                column,
                ascending,
                offset,
                limit,
            ).sql;
            let oc = order_clause(column, ascending);
            exists|i: int| 0 <= i && i + oc.len() <= sql.len() && #[trigger] sql.subrange(i, i + oc.len()) == oc
        }),
{
    let sql = search_rows_sorted_plan(table, term, columns, column, ascending, offset, limit).sql;
    let oc = order_clause(column, ascending);
    let head = if columns.len() == 0 || term.len() == 0 {
        "SELECT * FROM "@ + quoted(table)
    } else {
        "SELECT * FROM "@ + quoted(table) + " WHERE "@ + like_condition_spec(columns)
    };
    let tail = if columns.len() == 0 || term.len() == 0 {
        " LIMIT ?1 OFFSET ?2"@
    } else {
        paging_tail(columns.len())
    };
    assert(sql =~= head + oc + tail);
    assert(sql.subrange(head.len() as int, (head.len() + oc.len()) as int) =~= oc);
}

// ---------------------------------------------------------------------------
// Quoting and escaping
// ---------------------------------------------------------------------------

/// Quote an identifier for safe interpolation into a statement.
pub fn quote_ident(name: &str) -> (q: String)
    ensures
        q@ == quoted(name@),
{
    let n = name.unicode_len();
    let mut q = String::new();
    push_char(&mut q, '"');
    let mut i: usize = 0;
    while i < n
        invariant
            i <= n,
            n == name@.len(),
            q@ == seq!['"'] + escape_quotes(name@.take(i as int)),
        decreases n - i,
    {
        let ch = name.get_char(i);
        let ghost before = q@;
        if ch == '"' {
            push_char(&mut q, '"');
        }
        push_char(&mut q, ch);
        proof {
            let t = name@.take(i + 1);
            assert(t.drop_last() =~= name@.take(i as int));
            assert(t.last() == ch);
            assert(escape_quotes(t) == escape_quotes(name@.take(i as int)) + quote_char(ch));
            assert(q@ =~= before + quote_char(ch));
        }
        i = i + 1;
    }
    let ghost before = q@;
    push_char(&mut q, '"');
    assert(name@.take(n as int) =~= name@);
    assert(q@ =~= quoted(name@));
    q
}

/// Wrap a search term as a `LIKE` pattern, escaping `%`, `_`, and `\` so the
/// term is matched literally rather than as wildcards.
pub fn like_pattern(term: &str) -> (p: String)
    ensures
        p@ == like_pattern_spec(term@),
{
    let n = term.unicode_len();
    let mut p = String::new();
    push_char(&mut p, '%');
    let mut i: usize = 0;
    while i < n
        invariant
            i <= n,
            n == term@.len(),
            p@ == seq!['%'] + escape_like(term@.take(i as int)),
        decreases n - i,
    {
        let ch = term.get_char(i);
        let ghost before = p@;
        if ch == '%' || ch == '_' || ch == '\\' {
            push_char(&mut p, '\\');
        }
        push_char(&mut p, ch);
        proof {
            let t = term@.take(i + 1);
            assert(t.drop_last() =~= term@.take(i as int));
            assert(t.last() == ch);
            assert(escape_like(t) == escape_like(term@.take(i as int)) + like_char(ch));
            assert(p@ =~= before + like_char(ch));
        }
        i = i + 1;
    }
    push_char(&mut p, '%');
    assert(term@.take(n as int) =~= term@);
    assert(p@ =~= like_pattern_spec(term@));
    p
}

/// Build a `col LIKE ? ESCAPE '\' OR ...` clause for every column, in order.
pub fn like_condition(columns: &Vec<String>) -> (c: String)
    ensures
        c@ == like_condition_spec(names_of(columns@)),
{
    let n = columns.len();
    let mut c = String::new();
    let mut i: usize = 0;
    while i < n
        invariant
            i <= n,
            n == columns@.len(),
            c@ == like_condition_spec(names_of(columns@).take(i as int)),
        decreases n - i,
    {
        let ghost before = c@;
        if i > 0 {
            c.append(" OR ");
        }
        let q = quote_ident(columns[i].as_str());
        c.append(q.as_str());
        c.append(" LIKE ? ESCAPE '\\'");
        proof {
            let all = names_of(columns@);
            let t = all.take(i + 1);
            assert(t.drop_last() =~= all.take(i as int));
            assert(t.last() == columns@[i as int]@);
            if i == 0 {
                assert(all.take(0) =~= Seq::<Seq<char>>::empty());
                assert(c@ =~= like_clause(t[0]));
            } else {
                assert(c@ =~= before + " OR "@ + like_clause(t.last()));
            }
        }
        i = i + 1;
    }
    assert(names_of(columns@).take(n as int) =~= names_of(columns@));
    c
}

// ---------------------------------------------------------------------------
// Statements
// ---------------------------------------------------------------------------

/// The statement that lists the tables and views by name, without SQLite's
/// internal objects (those named `sqlite_...`; the `_` is escaped so that it
/// is not a wildcard).
pub fn table_names_sql() -> (s: &'static str)
    ensures
        s@
            == "SELECT name FROM sqlite_master WHERE type IN ('table', 'view') AND name NOT LIKE 'sqlite\\_%' ESCAPE '\\' ORDER BY name"@,
{
    "SELECT name FROM sqlite_master WHERE type IN ('table', 'view') AND name NOT LIKE 'sqlite\\_%' ESCAPE '\\' ORDER BY name"
}

/// The statement that lists the columns of the table bound to `?1`, in
/// declaration order: each column's name and declared type.
pub fn columns_sql() -> (s: &'static str)
    ensures
        s@ == "SELECT name, type FROM pragma_table_info(?1) ORDER BY cid"@,
{
    "SELECT name, type FROM pragma_table_info(?1) ORDER BY cid"
}

/// The statement that reads the file header, so that a file that is not a
/// database fails when it is opened.
pub fn header_check_sql() -> (s: &'static str)
    ensures
        s@ == "SELECT count(*) FROM sqlite_master"@,
{
    "SELECT count(*) FROM sqlite_master"
}

fn select_from(table: &str) -> (s: String)
    ensures
        s@ == "SELECT * FROM "@ + quoted(table@),
        is_select(s@),
{
    let mut s = String::from_str("SELECT * FROM ");
    let q = quote_ident(table);
    s.append(q.as_str());
    proof {
        reveal_strlit("SELECT * FROM ");
        reveal_strlit("SELECT ");
        assert(s@.take(7) =~= "SELECT "@);
    }
    s
}

fn count_from(table: &str) -> (s: String)
    ensures
        s@ == "SELECT count(*) FROM "@ + quoted(table@),
        is_select(s@),
{
    let mut s = String::from_str("SELECT count(*) FROM ");
    let q = quote_ident(table);
    s.append(q.as_str());
    proof {
        reveal_strlit("SELECT count(*) FROM ");
        reveal_strlit("SELECT ");
        assert(s@.take(7) =~= "SELECT "@);
    }
    s
}

fn append_order_by(s: &mut String, column: &str, ascending: bool)
    ensures
        final(s)@ == old(s)@ + " ORDER BY "@ + quoted(column@) + " "@ + direction(ascending),
{
    s.append(" ORDER BY ");
    let q = quote_ident(column);
    s.append(q.as_str());
    s.append(" ");
    if ascending {
        s.append("ASC");
    } else {
        s.append("DESC");
    }
}

fn append_paging(s: &mut String, n: usize)
    requires
        n + 2 <= u64::MAX,
    ensures
        final(s)@ == old(s)@ + paging_tail(n as nat),
{
    let ghost before = s@;
    s.append(" LIMIT ?");
    push_decimal(s, n as u64 + 1);
    s.append(" OFFSET ?");
    push_decimal(s, n as u64 + 2);
    assert(s@ =~= before + paging_tail(n as nat));
}

fn paging_values(offset: i64, limit: i64) -> (v: Vec<SqlValue>)
    ensures
        v@.map_values(|x: SqlValue| x@) == paging(offset, limit),
{
    let mut v = Vec::new();
    v.push(SqlValue::Integer(limit));
    v.push(SqlValue::Integer(offset));
    assert(v@.map_values(|x: SqlValue| x@) =~= paging(offset, limit));
    v
}

fn pattern_values(term: &str, n: usize) -> (v: Vec<SqlValue>)
    ensures
        v@.map_values(|x: SqlValue| x@) == patterns(term@, n as nat),
{
    let pattern = like_pattern(term);
    let mut v: Vec<SqlValue> = Vec::new();
    let mut i: usize = 0;
    while i < n
        invariant
            i <= n,
            pattern@ == like_pattern_spec(term@),
            v@.len() == i,
            forall|j: int| 0 <= j < i ==> v@[j]@ == SqlValueView::Text(like_pattern_spec(term@)),
        decreases n - i,
    {
        v.push(SqlValue::Text(pattern.clone()));
        i = i + 1;
    }
    assert(v@.map_values(|x: SqlValue| x@) =~= patterns(term@, n as nat));
    v
}

/// The number of rows in a table.
pub fn row_count_query(table: &str) -> (q: SqlQuery)
    ensures
        q@ == row_count_plan(table@),
        is_select(q@.sql),
{
    let q = SqlQuery { sql: count_from(table), params: Vec::new() };
    assert(q@.params =~= Seq::<SqlValueView>::empty());
    q
}

/// A window of `limit` rows starting at `offset`, in natural order.
pub fn rows_query(table: &str, offset: i64, limit: i64) -> (q: SqlQuery)
    ensures
        q@ == rows_plan(table@, offset, limit),
        is_select(q@.sql),
{
    let mut sql = select_from(table);
    let ghost head = sql@;
    sql.append(" LIMIT ?1 OFFSET ?2");
    let q = SqlQuery { sql, params: paging_values(offset, limit) };
    assert(q@.sql =~= window_sql(table@));
    assert(q@.sql.take(7) =~= head.take(7));
    q
}

/// A window of rows ordered by one column, ascending or descending. The order
/// applies to the whole table, so the offset indexes into the sorted rows.
pub fn rows_sorted_query(table: &str, column: &str, ascending: bool, offset: i64, limit: i64) -> (q:
    SqlQuery)
    ensures
        q@ == rows_sorted_plan(table@, column@, ascending, offset, limit),
        is_select(q@.sql),
{
    let mut sql = select_from(table);
    let ghost head = sql@;
    append_order_by(&mut sql, column, ascending);
    sql.append(" LIMIT ?1 OFFSET ?2");
    let q = SqlQuery { sql, params: paging_values(offset, limit) };
    assert(q@.sql =~= sorted_window_sql(table@, column@, ascending));
    assert(q@.sql.take(7) =~= head.take(7));
    q
}

/// The number of rows whose text contains `term` in any of `columns`, as a
/// case-insensitive `LIKE` scan. When `term` is empty, or there are no
/// columns, every row counts.
pub fn search_count_query(table: &str, term: &str, columns: &Vec<String>) -> (q: SqlQuery)
    ensures
        q@ == search_count_plan(table@, term@, names_of(columns@)),
        is_select(q@.sql),
{
    if term.is_empty() || columns.len() == 0 {
        return row_count_query(table);
    }
    let mut sql = count_from(table);
    let ghost head = sql@;
    sql.append(" WHERE ");
    let condition = like_condition(columns);
    sql.append(condition.as_str());
    let q = SqlQuery { sql, params: pattern_values(term, columns.len()) };
    assert(q@.sql =~= filtered_count_sql(table@, like_condition_spec(names_of(columns@))));
    assert(q@.sql.take(7) =~= head.take(7));
    q
}

/// A window of the rows that contain `term`, in natural order. The patterns
/// fill the leading placeholders, and `limit` and `offset` the trailing ones.
pub fn search_rows_query(
    table: &str,
    term: &str,
    columns: &Vec<String>,
    offset: i64,
    limit: i64,
) -> (q: SqlQuery)
    requires
        columns@.len() + 2 <= u64::MAX,
    ensures
        q@ == search_rows_plan(table@, term@, names_of(columns@), offset, limit),
        is_select(q@.sql),
{
    if columns.len() == 0 || term.is_empty() {
        return rows_query(table, offset, limit);
    }
    let mut sql = select_from(table);
    let ghost head = sql@;
    sql.append(" WHERE ");
    let condition = like_condition(columns);
    sql.append(condition.as_str());
    append_paging(&mut sql, columns.len());
    let mut params = pattern_values(term, columns.len());
    let mut tail = paging_values(offset, limit);
    let ghost p1 = params@;
    let ghost p2 = tail@;
    params.append(&mut tail);
    let q = SqlQuery { sql, params };
    assert(q@.params =~= p1.map_values(|x: SqlValue| x@) + p2.map_values(|x: SqlValue| x@));
    assert(q@.sql =~= filtered_window_sql(
        table@,
        like_condition_spec(names_of(columns@)),
        columns@.len(),
    ));
    assert(q@.sql.take(7) =~= head.take(7));
    q
}

/// A window of the matching rows ordered by one column: the filter applies
/// first, so the offset indexes into the matching rows only.
pub fn search_rows_sorted_query(
    table: &str,
    term: &str,
    columns: &Vec<String>,
    column: &str,
    ascending: bool,
    offset: i64,
    limit: i64,
) -> (q: SqlQuery)
    requires
        columns@.len() + 2 <= u64::MAX,
    ensures
        q@ == search_rows_sorted_plan(
            table@,
            term@,
            names_of(columns@),
            column@,
            ascending,
            offset,
            limit,
        ),
        is_select(q@.sql),
{
    if columns.len() == 0 || term.is_empty() {
        return rows_sorted_query(table, column, ascending, offset, limit);
    }
    let mut sql = select_from(table);
    let ghost head = sql@;
    sql.append(" WHERE ");
    let condition = like_condition(columns);
    sql.append(condition.as_str());
    append_order_by(&mut sql, column, ascending);
    append_paging(&mut sql, columns.len());
    let mut params = pattern_values(term, columns.len());
    let mut tail = paging_values(offset, limit);
    let ghost p1 = params@;
    let ghost p2 = tail@;
    params.append(&mut tail);
    let q = SqlQuery { sql, params };
    assert(q@.params =~= p1.map_values(|x: SqlValue| x@) + p2.map_values(|x: SqlValue| x@));
    assert(q@.sql =~= filtered_sorted_window_sql(
        table@,
        like_condition_spec(names_of(columns@)),
        column@,
        ascending,
        columns@.len(),
    ));
    assert(q@.sql.take(7) =~= head.take(7));
    q
}

/// The statement of a window of rows.
pub fn window_query(q: &WindowQuery) -> (r: SqlQuery)
    ensures
        r@ == window_plan(*q),
        is_select(r@.sql),
{
    match &q.sort {
        None => rows_query(q.table.as_str(), q.offset, q.limit),
        Some(k) => rows_sorted_query(
            q.table.as_str(),
            k.column.as_str(),
            k.ascending,
            q.offset,
            q.limit,
        ),
    }
}

// ---------------------------------------------------------------------------
// Values
// ---------------------------------------------------------------------------

/// Decodes bytes as UTF-8, replacing each invalid sequence by U+FFFD.
///
/// Trusted: calls `String::from_utf8_lossy`. Its result is named
/// `lossy_utf8`; std documents that valid UTF-8 comes back unchanged, which
/// the second clause states. What it makes of invalid input is left to the name.
#[verifier::external_body]
fn utf8_lossy(bytes: &Vec<u8>) -> (s: String)
    ensures
        s@ == lossy_utf8(bytes@),
        valid_utf8(bytes@) ==> s@ == decode_utf8(bytes@),
{
    String::from_utf8_lossy(bytes.as_slice()).into_owned()
}

/// Render a single SQLite value as display text for the grid.
pub fn cell_text(value: &CellValue) -> (s: String)
    ensures
        s@ == cell_text_spec(*value),
        value matches CellValue::Text(t) ==> (valid_utf8(t@) ==> s@ == decode_utf8(t@)),
{
    match value {
        CellValue::Null => String::from_str("NULL"),
        CellValue::Integer(i) => {
            let mut s = String::new();
            push_signed(&mut s, *i);
            assert(s@ =~= signed_decimal(*i as int));
            s
        },
        CellValue::Text(t) => utf8_lossy(t),
        CellValue::Blob(b) => {
            let mut s = String::from_str("<");
            push_decimal(&mut s, b.len() as u64);
            s.append(" bytes>");
            s
        },
    }
}

} // verus!
