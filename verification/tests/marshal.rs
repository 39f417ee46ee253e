//! Lengths and text as the native interface takes them.

use blingfire::{is_native_text, saturate, to_native_bytes, NATIVE_INT_MAX};

#[test]
fn lengths_that_fit_pass_unchanged() {
    assert_eq!(saturate(0), 0);
    assert_eq!(saturate(1), 1);
    assert_eq!(saturate(500), 500);
    assert_eq!(saturate(2147483646), 2147483646);
    assert_eq!(saturate(2147483647), 2147483647);
}

#[test]
fn lengths_beyond_the_native_width_are_clamped() {
    assert_eq!(NATIVE_INT_MAX, i32::MAX);
    assert_eq!(saturate(2147483648), 2147483647);
    assert_eq!(saturate(4294967295), 2147483647);
    assert_eq!(saturate(usize::MAX), 2147483647);
    assert_eq!(saturate(usize::MAX / 2), 2147483647);
}

#[test]
fn nul_bytes_are_found_wherever_they_are() {
    assert!(is_native_text(""));
    assert!(is_native_text("data/xlm_roberta.bling"));
    assert!(is_native_text("\u{44d}pple pie \u{1f967}"));
    assert!(!is_native_text("\0"));
    assert!(!is_native_text("\0abc"));
    assert!(!is_native_text("ab\0c"));
    assert!(!is_native_text("abc\0"));
}

#[test]
fn native_bytes_end_in_one_nul() {
    assert_eq!(to_native_bytes(""), vec![0]);
    assert_eq!(to_native_bytes("a"), vec![b'a', 0]);
    assert_eq!(to_native_bytes("hello world"), b"hello world\0");
    assert_eq!(to_native_bytes("\u{e9}"), vec![0xc3, 0xa9, 0]);
    assert_eq!(to_native_bytes("\u{1f967}"), vec![0xf0, 0x9f, 0xa5, 0xa7, 0]);
}
