//! The text operations, held against those of the standard library.
use tuicr::local_checkout::commit_text;
use tuicr::text::{
    decimal_text, ends_with, owned_texts, same_text, signed_decimal_text, strip_prefix, trim,
    trim_end_matches, white_space,
};

#[test]
fn white_space_is_that_of_unicode() {
    for c in '\0'..=char::MAX {
        assert_eq!(white_space(c), c.is_whitespace(), "{c:?}");
    }
}

#[test]
fn trimming_takes_white_space_off_both_ends() {
    for text in [
        "",
        " ",
        "\r\n",
        "main",
        "main\n",
        "\t main\r\n",
        "a b",
        "\u{3000}\u{e9} x\u{a0}",
        "\u{200b}x\u{200b}",
    ] {
        assert_eq!(trim(text), text.trim());
        assert_eq!(trim(trim(text)), trim(text));
        let padded = format!(" \n{text}\u{2003}\n");
        assert_eq!(trim(&padded), trim(text));
    }
}

#[test]
fn suffixes_are_taken_off_repeatedly() {
    for text in ["", "/", "a/", "a//", "/a/", "\u{e9}/", "a.git", "a.git.git", ".gitx"] {
        assert_eq!(trim_end_matches(text, "/"), text.trim_end_matches('/'));
        assert_eq!(trim_end_matches(text, ".git"), text.trim_end_matches(".git"));
    }
    assert!(ends_with("tuicr.git", ".git"));
    assert!(!ends_with("git", ".git"));
    assert!(ends_with("git", ""));
}

#[test]
fn prefixes_are_taken_off_once() {
    for (text, prefix) in [("aab", "a"), ("ab", "ab"), ("ab", "abc"), ("ab", ""), ("\u{e9}b", "\u{e9}")] {
        assert_eq!(strip_prefix(text, prefix), text.strip_prefix(prefix));
    }
}

#[test]
fn numbers_are_written_in_decimal() {
    for n in [0, 7, 9, 10, 99, 100, 125, 1_000_000, u64::MAX] {
        assert_eq!(decimal_text(n), n.to_string());
    }
    for n in [i32::MIN, -10, -1, 0, 1, 128, i32::MAX] {
        assert_eq!(signed_decimal_text(n), n.to_string());
    }
}

#[test]
fn texts_are_compared_and_copied() {
    assert!(same_text("\u{e9}", "\u{e9}"));
    assert!(!same_text("e\u{301}", "\u{e9}"));
    assert_eq!(owned_texts(&["a", "", "b"]), vec!["a", "", "b"]);
    assert_eq!(commit_text("abc"), "abc^{commit}");
}
