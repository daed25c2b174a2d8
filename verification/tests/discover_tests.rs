use r_sqlite::discover::{is_companion_file, is_sqlite_header, str_ends_with};

const MAGIC: [u8; 16] = *b"SQLite format 3\x00";

#[test]
fn full_header_is_a_database() {
    assert!(is_sqlite_header(&MAGIC, 16));
}

#[test]
fn short_read_is_not_a_database() {
    assert!(!is_sqlite_header(&MAGIC, 15));
    assert!(!is_sqlite_header(&MAGIC, 0));
}

#[test]
fn other_header_is_not_a_database() {
    let mut h = MAGIC;
    h[15] = b'!';
    assert!(!is_sqlite_header(&h, 16));
    assert!(!is_sqlite_header(&[0u8; 16], 16));
}

#[test]
fn companion_files_are_skipped() {
    assert!(is_companion_file("app.db-journal"));
    assert!(is_companion_file("app.db-wal"));
    assert!(is_companion_file("app.db-shm"));
    assert!(is_companion_file("-wal"));
    assert!(!is_companion_file("app.db"));
    assert!(!is_companion_file("wal"));
    assert!(!is_companion_file("app-wal.db"));
    assert!(!is_companion_file(""));
}

#[test]
fn ends_with_matches_std() {
    for (s, t) in [("abc", "bc"), ("abc", "abc"), ("abc", "abcd"), ("", ""), ("é-wal", "-wal"), ("x", "y")] {
        assert_eq!(str_ends_with(s, t), s.ends_with(t));
    }
}
