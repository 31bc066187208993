//! Tests of the inspect line's exact rendering.

use libc_print::annotation_line;
use libc_print::inspect_line;

#[test]
fn test_annotation_exact() {
    let v = annotation_line("src/lib.rs", 7);
    assert_eq!(v, b"[src/lib.rs:7]".to_vec());
}

#[test]
fn test_annotation_zero_line() {
    let v = annotation_line("a.rs", 0);
    assert_eq!(v, b"[a.rs:0]".to_vec());
}

#[test]
fn test_annotation_long_line_number() {
    let v = annotation_line("deep/nested/file.rs", 4294967295);
    assert_eq!(v, b"[deep/nested/file.rs:4294967295]".to_vec());
}

#[test]
fn test_inspect_line_exact() {
    let v = inspect_line("src/main.rs", 2, "a * 2", "4");
    assert_eq!(v, b"[src/main.rs:2] a * 2 = 4".to_vec());
}

#[test]
fn test_inspect_line_pretty_value() {
    // a pretty-rendered value may span lines; they pass through untouched
    let v = inspect_line("m.rs", 10, "pair", "(\n    1,\n    2,\n)");
    assert_eq!(v, b"[m.rs:10] pair = (\n    1,\n    2,\n)".to_vec());
}
