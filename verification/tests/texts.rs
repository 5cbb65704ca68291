use josh_sync::git::{branch_ref_of, full_ref_of, push_new_line};
use josh_sync::text::{
    copy_all, count_before, first_word, is_white_space, join, same, shorten, split_once, starts_with, trim, trim_end,
};

#[test]
fn positions_are_counted_in_characters() {
    assert_eq!(count_before("\u{e9}\u{1f600}/x/y", '/'), 2);
    assert_eq!(count_before("abc", '/'), 3);
    assert_eq!(count_before("", '/'), 0);
}

#[test]
fn split_at_the_first() {
    let s = |text: &str| text.to_string();
    assert_eq!(split_once("a/b/c", '/'), Some((s("a"), s("b/c"))));
    assert_eq!(split_once("/", '/'), Some((s(""), s(""))));
    assert_eq!(split_once("\u{e9}/\u{e9}", '/'), Some((s("\u{e9}"), s("\u{e9}"))));
    assert_eq!(split_once("abc", '/'), None);
    assert_eq!(split_once("", '/'), None);
}

#[test]
fn ends_are_trimmed() {
    assert_eq!(trim_end("a//", '/'), "a");
    assert_eq!(trim_end("/a", '/'), "/a");
    assert_eq!(trim_end("//", '/'), "");
    for text in ["", " ", "a", "\t a b\u{3000}\n", "\u{85}x\u{a0}", "\u{200b}x"] {
        assert_eq!(trim(text), text.trim());
    }
}

#[test]
fn first_words() {
    assert_eq!(first_word("3a1f\tHEAD\n").as_deref(), Some("3a1f"));
    assert_eq!(first_word("  \n x").as_deref(), Some("x"));
    assert_eq!(first_word("word").as_deref(), Some("word"));
    assert_eq!(first_word(" \t\n"), None);
    assert_eq!(first_word(""), None);
}

#[test]
fn white_space_is_what_the_standard_library_takes_for_it() {
    for code in 0..0x11_0000u32 {
        if let Some(c) = char::from_u32(code) {
            let listed = matches!(
                code,
                0x09..=0x0d
                    | 0x20
                    | 0x85
                    | 0xa0
                    | 0x1680
                    | 0x2000..=0x200a
                    | 0x2028
                    | 0x2029
                    | 0x202f
                    | 0x205f
                    | 0x3000
            );
            assert_eq!(is_white_space(c), listed);
            assert_eq!(c.is_whitespace(), listed);
        }
    }
}

#[test]
fn prefixes_and_sameness() {
    assert!(starts_with("refs/heads/x", "refs/"));
    assert!(starts_with("refs/", "refs/"));
    assert!(!starts_with("refs", "refs/"));
    assert!(starts_with("x", ""));
    assert!(same("a", "a"));
    assert!(!same("a", "b"));
    assert!(!same("a", "ab"));
}

#[test]
fn joined_words() {
    let words: Vec<String> = ["cargo", "fmt", ""].iter().map(|s| s.to_string()).collect();
    assert_eq!(join(&words, " "), "cargo fmt ");
    assert_eq!(join(&vec![], " "), "");
    assert_eq!(copy_all(&words), words);
}

#[test]
fn short_forms() {
    assert_eq!(shorten("3a1f5e2b9c8d4e7f6a0b"), "3a1f5e2b9c8d");
    assert_eq!(shorten("3a1f5e2b9c8d"), "3a1f5e2b9c8d");
    assert_eq!(shorten("\u{e9}\u{e9}\u{e9}\u{e9}\u{e9}\u{e9}x"), "\u{e9}\u{e9}\u{e9}\u{e9}\u{e9}\u{e9}");
}

#[test]
fn names_of_branches() {
    assert_eq!(full_ref_of("HEAD"), "HEAD");
    assert_eq!(full_ref_of("refs/tags/v1"), "refs/tags/v1");
    assert_eq!(full_ref_of("main"), "refs/heads/main");
    assert_eq!(full_ref_of("head"), "refs/heads/head");
    assert_eq!(full_ref_of("refs"), "refs/heads/refs");
    assert_eq!(branch_ref_of("HEAD"), "refs/heads/HEAD");
}

#[test]
fn push_is_leased_on_absence() {
    assert_eq!(
        push_new_line("HEAD", "refs/heads/b", "http://josh/x.git"),
        vec![
            "git",
            "push",
            "-o",
            "base=HEAD",
            "--force-with-lease=refs/heads/b:",
            "http://josh/x.git",
            "HEAD:refs/heads/b",
        ]
    );
}
