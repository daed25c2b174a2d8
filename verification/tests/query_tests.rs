use r_sqlite::query::{
    cell_text, columns_sql, header_check_sql, like_condition, like_pattern, quote_ident,
    row_count_query, rows_query, rows_sorted_query, search_count_query, search_rows_query,
    search_rows_sorted_query, table_names_sql, window_query, CellValue, SortKey, SqlQuery,
    SqlValue, WindowQuery,
};

fn texts(q: &SqlQuery) -> Vec<String> {
    q.params
        .iter()
        .map(|v| match v {
            SqlValue::Text(t) => format!("T:{t}"),
            SqlValue::Integer(i) => format!("I:{i}"),
        })
        .collect()
}

fn names(v: &[&str]) -> Vec<String> {
    v.iter().map(|s| s.to_string()).collect()
}

#[test]
fn quote_ident_doubles_quotes() {
    assert_eq!(quote_ident("users"), "\"users\"");
    assert_eq!(quote_ident("a\"b"), "\"a\"\"b\"");
    assert_eq!(quote_ident(""), "\"\"");
    assert_eq!(quote_ident("\""), "\"\"\"\"");
    assert_eq!(quote_ident("a b;DROP"), "\"a b;DROP\"");
}

#[test]
fn quote_ident_keeps_names_apart() {
    // distinct names never quote alike
    let a = quote_ident("x\"");
    let b = quote_ident("x");
    assert_ne!(a, b);
}

#[test]
fn like_pattern_escapes_wildcards() {
    assert_eq!(like_pattern("abc"), "%abc%");
    assert_eq!(like_pattern("50%"), "%50\\%%");
    assert_eq!(like_pattern("a_b"), "%a\\_b%");
    assert_eq!(like_pattern("c:\\x"), "%c:\\\\x%");
    assert_eq!(like_pattern(""), "%%");
}

#[test]
fn like_condition_over_columns() {
    assert_eq!(like_condition(&names(&[])), "");
    assert_eq!(like_condition(&names(&["a"])), "\"a\" LIKE ? ESCAPE '\\'");
    assert_eq!(
        like_condition(&names(&["a", "b\"c"])),
        "\"a\" LIKE ? ESCAPE '\\' OR \"b\"\"c\" LIKE ? ESCAPE '\\'"
    );
}

#[test]
fn fixed_statements() {
    assert_eq!(
        table_names_sql(),
        "SELECT name FROM sqlite_master WHERE type IN ('table', 'view') AND name NOT LIKE 'sqlite\\_%' ESCAPE '\\' ORDER BY name"
    );
    assert_eq!(columns_sql(), "SELECT name, type FROM pragma_table_info(?1) ORDER BY cid");
    assert_eq!(header_check_sql(), "SELECT count(*) FROM sqlite_master");
}

#[test]
fn row_count_statement() {
    let q = row_count_query("my table");
    assert_eq!(q.sql, "SELECT count(*) FROM \"my table\"");
    assert!(q.params.is_empty());
}

#[test]
fn window_statements() {
    let q = rows_query("t", 150, 300);
    assert_eq!(q.sql, "SELECT * FROM \"t\" LIMIT ?1 OFFSET ?2");
    assert_eq!(texts(&q), vec!["I:300", "I:150"]);
    let q = rows_sorted_query("t", "when", false, 0, 300);
    assert_eq!(q.sql, "SELECT * FROM \"t\" ORDER BY \"when\" DESC LIMIT ?1 OFFSET ?2");
    assert_eq!(texts(&q), vec!["I:300", "I:0"]);
    let q = rows_sorted_query("t", "id", true, 5, 10);
    assert_eq!(q.sql, "SELECT * FROM \"t\" ORDER BY \"id\" ASC LIMIT ?1 OFFSET ?2");
}

#[test]
fn window_query_follows_sort() {
    let w = WindowQuery { table: "t".to_string(), sort: None, offset: 7, limit: 300 };
    assert_eq!(window_query(&w).sql, "SELECT * FROM \"t\" LIMIT ?1 OFFSET ?2");
    let w = WindowQuery {
        table: "t".to_string(),
        sort: Some(SortKey { column: "c".to_string(), ascending: true }),
        offset: 7,
        limit: 300,
    };
    let q = window_query(&w);
    assert_eq!(q.sql, "SELECT * FROM \"t\" ORDER BY \"c\" ASC LIMIT ?1 OFFSET ?2");
    assert_eq!(texts(&q), vec!["I:300", "I:7"]);
}

#[test]
fn search_count_statements() {
    let cols = names(&["a", "b"]);
    let q = search_count_query("t", "x_1", &cols);
    assert_eq!(
        q.sql,
        "SELECT count(*) FROM \"t\" WHERE \"a\" LIKE ? ESCAPE '\\' OR \"b\" LIKE ? ESCAPE '\\'"
    );
    assert_eq!(texts(&q), vec!["T:%x\\_1%", "T:%x\\_1%"]);
    // an empty term counts every row
    let q = search_count_query("t", "", &cols);
    assert_eq!(q.sql, "SELECT count(*) FROM \"t\"");
    assert!(q.params.is_empty());
    // so does a table without columns
    let q = search_count_query("t", "x", &names(&[]));
    assert_eq!(q.sql, "SELECT count(*) FROM \"t\"");
}

#[test]
fn search_rows_statements() {
    let cols = names(&["a", "b"]);
    let q = search_rows_query("t", "x", &cols, 10, 300);
    assert_eq!(
        q.sql,
        "SELECT * FROM \"t\" WHERE \"a\" LIKE ? ESCAPE '\\' OR \"b\" LIKE ? ESCAPE '\\' LIMIT ?3 OFFSET ?4"
    );
    assert_eq!(texts(&q), vec!["T:%x%", "T:%x%", "I:300", "I:10"]);
    let q = search_rows_query("t", "", &cols, 10, 300);
    assert_eq!(q.sql, "SELECT * FROM \"t\" LIMIT ?1 OFFSET ?2");
    assert_eq!(texts(&q), vec!["I:300", "I:10"]);
}

#[test]
fn search_rows_sorted_statements() {
    let cols = names(&["a"]);
    let q = search_rows_sorted_query("t", "%", &cols, "a", false, 0, 300);
    assert_eq!(
        q.sql,
        "SELECT * FROM \"t\" WHERE \"a\" LIKE ? ESCAPE '\\' ORDER BY \"a\" DESC LIMIT ?2 OFFSET ?3"
    );
    assert_eq!(texts(&q), vec!["T:%\\%%", "I:300", "I:0"]);
    let q = search_rows_sorted_query("t", "z", &names(&[]), "a", true, 0, 300);
    assert_eq!(q.sql, "SELECT * FROM \"t\" ORDER BY \"a\" ASC LIMIT ?1 OFFSET ?2");
}

#[test]
fn placeholders_count_past_nine() {
    let cols: Vec<String> = (0..10).map(|i| format!("c{i}")).collect();
    let q = search_rows_query("t", "x", &cols, 0, 1);
    assert!(q.sql.ends_with(" LIMIT ?11 OFFSET ?12"));
    assert_eq!(q.params.len(), 12);
}

#[test]
fn every_statement_reads() {
    let cols = names(&["a"]);
    for q in [
        row_count_query("t"),
        rows_query("t", 0, 1),
        rows_sorted_query("t", "a", true, 0, 1),
        search_count_query("t", "x", &cols),
        search_rows_query("t", "x", &cols, 0, 1),
        search_rows_sorted_query("t", "x", &cols, "a", true, 0, 1),
    ] {
        assert!(q.sql.starts_with("SELECT "));
    }
}

#[test]
fn cell_text_renders_values() {
    assert_eq!(cell_text(&CellValue::Null), "NULL");
    assert_eq!(cell_text(&CellValue::Integer(-42)), "-42");
    assert_eq!(cell_text(&CellValue::Integer(i64::MIN)), "-9223372036854775808");
    assert_eq!(cell_text(&CellValue::Text("héllo".as_bytes().to_vec())), "héllo");
    assert_eq!(cell_text(&CellValue::Blob(vec![1, 2, 3])), "<3 bytes>");
    assert_eq!(cell_text(&CellValue::Blob(vec![])), "<0 bytes>");
}

#[test]
fn cell_text_replaces_invalid_utf8() {
    assert_eq!(cell_text(&CellValue::Text(vec![b'a', 0xff, b'b'])), "a\u{fffd}b");
    assert_eq!(cell_text(&CellValue::Text(vec![])), "");
    assert_eq!(cell_text(&CellValue::Text(b"hi".to_vec())), "hi");
}

#[test]
fn like_patterns_keep_terms_apart() {
    // "\\%" and "%" must not give the same pattern, nor "a_" and "a\\_"
    assert_ne!(like_pattern("\\%"), like_pattern("%"));
    assert_ne!(like_pattern("a_"), like_pattern("a\\_"));
    assert_eq!(like_pattern("\\%"), "%\\\\\\%%");
}
