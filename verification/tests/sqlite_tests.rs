//! The statements of the query layer run against a real SQLite database.
use r_sqlite::query::{
    cell_text, columns_sql, quote_ident, row_count_query, rows_query, rows_sorted_query,
    search_count_query, search_rows_query, search_rows_sorted_query, table_names_sql, CellValue,
    SqlQuery, SqlValue,
};
use rusqlite::types::{Value, ValueRef};
use rusqlite::{params_from_iter, Connection};

fn bind(q: &SqlQuery) -> Vec<Value> {
    q.params
        .iter()
        .map(|v| match v {
            SqlValue::Text(t) => Value::Text(t.clone()),
            SqlValue::Integer(i) => Value::Integer(*i),
        })
        .collect()
}

fn count(conn: &Connection, q: &SqlQuery) -> i64 {
    conn.query_row(&q.sql, params_from_iter(bind(q).iter()), |r| r.get(0)).unwrap()
}

fn fetch(conn: &Connection, q: &SqlQuery) -> Vec<Vec<String>> {
    let mut stmt = conn.prepare(&q.sql).unwrap();
    let n = stmt.column_count();
    let mut rows = stmt.query(params_from_iter(bind(q).iter())).unwrap();
    let mut out = Vec::new();
    while let Some(row) = rows.next().unwrap() {
        let mut cells = Vec::new();
        for i in 0..n {
            cells.push(match row.get_ref(i).unwrap() {
                ValueRef::Null => cell_text(&CellValue::Null),
                ValueRef::Integer(x) => cell_text(&CellValue::Integer(x)),
                ValueRef::Real(f) => f.to_string(),
                ValueRef::Text(t) => cell_text(&CellValue::Text(t.to_vec())),
                ValueRef::Blob(b) => cell_text(&CellValue::Blob(b.to_vec())),
            });
        }
        out.push(cells);
    }
    out
}

const TEXTS: [&str; 8] = ["100%", "100 percent", "a_b", "axb", "C:\\dir", "Hello", "hello world", "HELLO"];

fn sample() -> Connection {
    let conn = Connection::open_in_memory().unwrap();
    conn.execute_batch(
        "CREATE TABLE \"we\"\"ird\" (id INTEGER, \"note\"\"s\" TEXT, data BLOB);
         CREATE VIEW v AS SELECT id FROM \"we\"\"ird\";
         CREATE TABLE sqlitedb (x);",
    )
    .unwrap();
    for (i, t) in TEXTS.iter().enumerate() {
        conn.execute(
            "INSERT INTO \"we\"\"ird\" VALUES (?1, ?2, NULL)",
            params_from_iter([Value::Integer(i as i64), Value::Text(t.to_string())].iter()),
        )
        .unwrap();
    }
    conn
}

fn columns(conn: &Connection, table: &str) -> Vec<String> {
    let mut stmt = conn.prepare(columns_sql()).unwrap();
    let names = stmt
        .query_map([table], |r| r.get::<_, String>(0))
        .unwrap()
        .collect::<Result<Vec<_>, _>>()
        .unwrap();
    names
}

#[test]
fn listing_tables_and_columns() {
    let conn = sample();
    let mut stmt = conn.prepare(table_names_sql()).unwrap();
    let names: Vec<String> =
        stmt.query_map([], |r| r.get(0)).unwrap().collect::<Result<_, _>>().unwrap();
    assert_eq!(names, vec!["sqlitedb".to_string(), "v".to_string(), "we\"ird".to_string()]);
    assert_eq!(columns(&conn, "we\"ird"), vec!["id", "note\"s", "data"]);
    let mut stmt = conn.prepare(columns_sql()).unwrap();
    let types: Vec<String> =
        stmt.query_map(["we\"ird"], |r| r.get(1)).unwrap().collect::<Result<_, _>>().unwrap();
    assert_eq!(types, vec!["INTEGER", "TEXT", "BLOB"]);
}

#[test]
fn quoted_names_reach_the_right_table() {
    let conn = sample();
    assert_eq!(count(&conn, &row_count_query("we\"ird")), 8);
    let q = format!("SELECT {} FROM {}", quote_ident("note\"s"), quote_ident("we\"ird"));
    let n: i64 = conn.query_row(&format!("SELECT count(*) FROM ({q})"), [], |r| r.get(0)).unwrap();
    assert_eq!(n, 8);
}

#[test]
fn windows_of_rows() {
    let conn = sample();
    let rows = fetch(&conn, &rows_query("we\"ird", 2, 3));
    assert_eq!(rows.len(), 3);
    assert_eq!(rows[0], vec!["2", "a_b", "NULL"]);
    let rows = fetch(&conn, &rows_sorted_query("we\"ird", "id", false, 0, 2));
    assert_eq!(rows[0][0], "7");
    assert_eq!(rows[1][0], "6");
}

#[test]
fn search_matches_terms_literally() {
    let conn = sample();
    let cols = columns(&conn, "we\"ird");
    for term in ["%", "_", "\\", "100%", "a_b", "hello", "HeLLo", "C:\\", "", "zzz", "0"] {
        let got = count(&conn, &search_count_query("we\"ird", term, &cols));
        let want = TEXTS
            .iter()
            .enumerate()
            .filter(|(i, t)| {
                let t = t.to_ascii_lowercase();
                let id = i.to_string();
                let term = term.to_ascii_lowercase();
                t.contains(&term) || id.contains(&term) || term.is_empty()
            })
            .count() as i64;
        assert_eq!(got, want, "term {term:?}");
    }
}

#[test]
fn search_windows() {
    let conn = sample();
    let cols = columns(&conn, "we\"ird");
    let rows = fetch(&conn, &search_rows_query("we\"ird", "hello", &cols, 0, 10));
    let ids: Vec<&str> = rows.iter().map(|r| r[0].as_str()).collect();
    assert_eq!(ids, vec!["5", "6", "7"]);
    let rows = fetch(&conn, &search_rows_query("we\"ird", "hello", &cols, 1, 1));
    assert_eq!(rows[0][0], "6");
    let rows = fetch(&conn, &search_rows_sorted_query("we\"ird", "hello", &cols, "id", false, 0, 10));
    let ids: Vec<&str> = rows.iter().map(|r| r[0].as_str()).collect();
    assert_eq!(ids, vec!["7", "6", "5"]);
}
