use cnix::text::{
    append_owned, borrowed, chars_of, contains_text, ends_with, format_decimal, format_signed,
    is_white_space, join, owned, push_text, same_text, split_words,
};

fn strings(parts: &[&str]) -> Vec<String> {
    parts.iter().map(|s| s.to_string()).collect()
}

#[test]
fn decimals_are_written_as_std_writes_them() {
    for n in [0, 7, 9, 10, 11, 99, 100, 1_000_000_007, u64::MAX] {
        assert_eq!(format_decimal(n), n.to_string());
    }
    assert_eq!(format_decimal(120), "120");
}

#[test]
fn signed_decimals_are_written_as_std_writes_them() {
    for n in [0, 1, -1, 255, -255, i32::MAX, i32::MIN] {
        assert_eq!(format_signed(n), n.to_string());
    }
    assert_eq!(format_signed(-12), "-12");
}

#[test]
fn white_space_is_what_std_takes_for_it() {
    for c in '\0'..=char::MAX {
        assert_eq!(is_white_space(c), c.is_whitespace(), "{:?}", c);
    }
}

#[test]
fn words_are_split_as_std_splits_them() {
    for text in [
        "",
        " ",
        "one",
        " one",
        "one ",
        "/nix/store/a\n/nix/store/b\n",
        "a\u{3000}b\u{a0}\tc",
        "\n\nd\u{e9}j\u{e0} vu\r\n",
    ] {
        let expected: Vec<String> = text.split_whitespace().map(|s| s.to_string()).collect();
        assert_eq!(split_words(text), expected);
    }
    assert_eq!(split_words(" a  b "), ["a", "b"]);
}

#[test]
fn lines_are_read_back_as_words() {
    let lines = strings(&["/nix/store/aaa", "/nix/store/bbb", "/nix/store/ccc"]);
    assert_eq!(split_words(&join(&lines, "\n")), lines);
    assert_eq!(split_words(&(join(&lines, "\n") + "\n")), lines);
}

#[test]
fn pieces_are_joined() {
    assert_eq!(join(&strings(&[]), ", "), "");
    assert_eq!(join(&strings(&["a"]), ", "), "a");
    assert_eq!(join(&strings(&["a", "", "c"]), ", "), "a, , c");
}

#[test]
fn suffixes_are_recognised() {
    assert!(ends_with("/nix/bin/nix", "bin/nix"));
    assert!(ends_with("x", ""));
    assert!(!ends_with("nix", "bin/nix"));
    assert!(!ends_with("/nix/bin/nix-env", "bin/nix"));
}

#[test]
fn texts_are_compared_and_listed() {
    assert!(same_text("nix", "nix"));
    assert!(!same_text("nix", "nixos"));
    assert!(contains_text(&["a", "b"], "b"));
    assert!(!contains_text(&["a", "b"], "c"));
    assert_eq!(chars_of("h\u{e9}"), ['h', '\u{e9}']);
    let mut v = owned(&["a", "b"]);
    append_owned(&mut v, &["c"]);
    push_text(&mut v, "d");
    assert_eq!(borrowed(&v), ["a", "b", "c", "d"]);
}
