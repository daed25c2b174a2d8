use r_sqlite::logo::{logo, logo_from_text, LOGO_ART};

#[test]
fn lines_are_split_and_trimmed() {
    let l = logo_from_text("ab  \n\ncde\r\n  x");
    assert_eq!(l.lines, vec!["ab".to_string(), "".to_string(), "cde".to_string(), "  x".to_string()]);
    assert_eq!(l.width, 3);
}

#[test]
fn final_newline_ends_the_last_line() {
    let l = logo_from_text("a\nbb\n");
    assert_eq!(l.lines, vec!["a".to_string(), "bb".to_string()]);
    assert_eq!(l.width, 2);
    let l = logo_from_text("");
    assert!(l.lines.is_empty());
    assert_eq!(l.width, 0);
    let l = logo_from_text("\n");
    assert_eq!(l.lines, vec!["".to_string()]);
}

#[test]
fn same_as_std_lines() {
    for text in ["a\nb", "a\r\nb\r\n", "\n\n", "x  \ny\t\n", "é\n"] {
        let want: Vec<String> = text.lines().map(|l| l.trim_end().to_string()).collect();
        let width = want.iter().map(|l| l.chars().count()).max().unwrap_or(0);
        let l = logo_from_text(text);
        assert_eq!(l.lines, want);
        assert_eq!(l.width, width);
    }
}

#[test]
fn the_logo() {
    let l = logo();
    assert_eq!(l.lines.len(), LOGO_ART.lines().count());
    assert_eq!(l.width, LOGO_ART.lines().map(|x| x.trim_end().chars().count()).max().unwrap());
}

#[test]
fn rendering_centres_the_art() {
    let l = logo_from_text("ab\ncd");
    let rows = l.render(10, 6);
    assert_eq!(rows, vec!["", "", "    ab", "    cd"]);
    // too small an area: drawn at the edge
    let rows = l.render(1, 1);
    assert_eq!(rows, vec!["ab", "cd"]);
    assert!(l.render(0, 5).is_empty());
    assert!(l.render(5, 0).is_empty());
}
