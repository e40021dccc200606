//! Sanitization and output-path naming.

use certmaker::naming::{certificate_file_name, sanitize_stem};

#[test]
fn spaces_and_separators_become_underscores() {
    assert_eq!(sanitize_stem("Alice Johnson"), "Alice_Johnson");
    assert_eq!(sanitize_stem("a/b"), "a_b");
    assert_eq!(sanitize_stem("a\\b"), "a_b");
    assert_eq!(sanitize_stem("no-change.txt"), "no-change.txt");
    assert_eq!(sanitize_stem(""), "");
}

#[test]
fn output_path_is_built_from_the_stem() {
    assert_eq!(
        certificate_file_name("certificates", "Bob Smith"),
        "certificates/certificate_Bob_Smith.png"
    );
    assert_eq!(certificate_file_name("out", "x"), "out/certificate_x.png");
}

#[test]
fn colliding_stems_share_one_output_path() {
    // two distinct names, one surviving output file
    let a = "A/B";
    let b = "A\\B";
    assert_ne!(a, b);
    assert_eq!(sanitize_stem(a), sanitize_stem(b));
    assert_eq!(
        certificate_file_name("out", a),
        certificate_file_name("out", b)
    );
}
