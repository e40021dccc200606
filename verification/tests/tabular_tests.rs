//! Extracting names from parsed tabular data.

use certmaker::tabular::{extract_names, find_name_column, trim_str, NamesError};

fn v(items: &[&str]) -> Vec<String> {
    items.iter().map(|s| s.to_string()).collect()
}

#[test]
fn trim_strips_whitespace() {
    assert_eq!(trim_str("  hello  "), "hello");
    assert_eq!(trim_str("\t a b \r\n"), "a b");
    assert_eq!(trim_str("none"), "none");
    assert_eq!(trim_str("   "), "");
    assert_eq!(trim_str(""), "");
}

#[test]
fn trim_strips_unicode_whitespace() {
    // no-break space, ideographic space, en quad
    assert_eq!(trim_str("\u{a0}Ann\u{a0}"), "Ann");
    assert_eq!(trim_str("\u{3000}Bo\u{2000}Li\u{3000}"), "Bo\u{2000}Li");
    assert_eq!(trim_str("\u{a0}\u{2028}\u{205f}"), "");
    assert_eq!(trim_str("  x\u{200b}  "), "x\u{200b}"); // zero-width space is not whitespace
}

#[test]
fn name_column_is_found_case_insensitively() {
    assert_eq!(find_name_column(&v(&["Name"])), Some(0));
    assert_eq!(find_name_column(&v(&["id", " NAME ", "email"])), Some(1));
    assert_eq!(find_name_column(&v(&["id", "\u{a0}Name\u{a0}"])), Some(1));
    assert_eq!(find_name_column(&v(&["id", "email"])), None);
    assert_eq!(find_name_column(&v(&[])), None);
    // first match wins
    assert_eq!(find_name_column(&v(&["name", "Name"])), Some(0));
}

#[test]
fn names_are_trimmed_and_empties_skipped() {
    let headers = v(&["Id", "Name"]);
    let rows = vec![
        v(&["1", " Alice Johnson "]),
        v(&["2", "   "]),
        v(&["3", "Bob Smith"]),
        v(&["4"]), // row without the name column is skipped
    ];
    let names = extract_names(&headers, &rows).expect("names must be found");
    assert_eq!(names, v(&["Alice Johnson", "Bob Smith"]));
}

#[test]
fn missing_name_column_is_rejected() {
    let headers = v(&["Id", "Email"]);
    let rows = vec![v(&["1", "a@example.com"])];
    assert_eq!(extract_names(&headers, &rows), Err(NamesError::NoNameColumn));
    assert_eq!(
        NamesError::NoNameColumn.message(),
        "no name column found"
    );
}

#[test]
fn a_sheet_without_usable_names_is_rejected() {
    let headers = v(&["Name"]);
    let rows = vec![v(&["  "]), v(&[""])];
    assert_eq!(extract_names(&headers, &rows), Err(NamesError::NoValidNames));
    let no_rows: Vec<Vec<String>> = Vec::new();
    assert_eq!(extract_names(&headers, &no_rows), Err(NamesError::NoValidNames));
}
