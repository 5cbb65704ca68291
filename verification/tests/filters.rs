use josh_sync::config::JoshConfig;
use josh_sync::filter::{construct_josh_filter, convert_rev_syntax, wrap_compat};
use josh_sync::sync::FilterVersion;

#[test]
fn no_rev_block_unchanged() {
    assert_eq!(convert_rev_syntax(":/some/path"), ":/some/path");
}

#[test]
fn single_sha_gets_prefix() {
    assert_eq!(
        convert_rev_syntax(":rev(3a1f5e2b9c8d4e7f6a0b1c2d3e4f5a6b7c8d9e0f:/some/path)"),
        ":rev(<=3a1f5e2b9c8d4e7f6a0b1c2d3e4f5a6b7c8d9e0f:/some/path)",
    );
}

#[test]
fn null_sha_becomes_underscore() {
    assert_eq!(
        convert_rev_syntax(":rev(0000000000000000000000000000000000000000:/some/path)"),
        ":rev(_:/some/path)",
    );
}

#[test]
fn multiple_entries_in_rev_block() {
    assert_eq!(
        convert_rev_syntax(
            ":rev(3a1f5e2b9c8d4e7f6a0b1c2d3e4f5a6b7c8d9e0f:/p1,\
             e4c7a2d8f1b3e5a9d6c0f2b4a7e1d3c5f8a0b6e9:/p2,\
             0000000000000000000000000000000000000000:/p3)"
        ),
        ":rev(<=3a1f5e2b9c8d4e7f6a0b1c2d3e4f5a6b7c8d9e0f:/p1,\
         <=e4c7a2d8f1b3e5a9d6c0f2b4a7e1d3c5f8a0b6e9:/p2,\
         _:/p3)",
    );
}

#[test]
fn already_converted_syntax_unchanged() {
    assert_eq!(
        convert_rev_syntax(":rev(<=3a1f5e2b9c8d4e7f6a0b1c2d3e4f5a6b7c8d9e0f:/some/path)"),
        ":rev(<=3a1f5e2b9c8d4e7f6a0b1c2d3e4f5a6b7c8d9e0f:/some/path)",
    );
}

#[test]
fn underscore_syntax_unchanged() {
    assert_eq!(
        convert_rev_syntax(":rev(_:/some/path)"),
        ":rev(_:/some/path)",
    );
}

#[test]
fn sha_outside_rev_block_unchanged() {
    assert_eq!(
        convert_rev_syntax("3a1f5e2b9c8d4e7f6a0b1c2d3e4f5a6b7c8d9e0f:/some/path"),
        "3a1f5e2b9c8d4e7f6a0b1c2d3e4f5a6b7c8d9e0f:/some/path",
    );
}

#[test]
fn wrap_compat_simple_filter() {
    assert_eq!(
        wrap_compat(":/some/path"),
        ":~(history=\"keep-trivial-merges\",gpgsig=\"norm-lf\")[:/some/path]",
    );
}

#[test]
fn wrap_compat_rev_filter() {
    assert_eq!(
        wrap_compat(
            ":rev(75dd959a3a40eb5b4574f8d2e23aa6efbeb33573:prefix=src/tools/miri):/src/tools/miri"
        ),
        ":~(history=\"keep-trivial-merges\",gpgsig=\"norm-lf\")\
         [:rev(75dd959a3a40eb5b4574f8d2e23aa6efbeb33573:prefix=src/tools/miri):/src/tools/miri]",
    );
}

#[test]
fn multiple_rev_blocks() {
    assert_eq!(
        convert_rev_syntax(
            ":rev(3a1f5e2b9c8d4e7f6a0b1c2d3e4f5a6b7c8d9e0f:/p1)\
             :rev(e4c7a2d8f1b3e5a9d6c0f2b4a7e1d3c5f8a0b6e9:/p2)"
        ),
        ":rev(<=3a1f5e2b9c8d4e7f6a0b1c2d3e4f5a6b7c8d9e0f:/p1)\
         :rev(<=e4c7a2d8f1b3e5a9d6c0f2b4a7e1d3c5f8a0b6e9:/p2)",
    );
}

const NULL: &str = "0000000000000000000000000000000000000000";
const SHA: &str = "3a1f5e2b9c8d4e7f6a0b1c2d3e4f5a6b7c8d9e0f";

#[test]
fn conversion_twice_is_conversion_once() {
    for text in [
        "",
        ":rev(",
        ":rev()",
        ":re:rev(0000000000000000000000000000000000000000:/a,3a1f5e2b9c8d4e7f6a0b1c2d3e4f5a6b7c8d9e0f:/b):/c",
        ":rev(x(3a1f5e2b9c8d4e7f6a0b1c2d3e4f5a6b7c8d9e0f::rev(0000000000000000000000000000000000000000:/a)",
    ] {
        let once = convert_rev_syntax(text);
        assert_eq!(convert_rev_syntax(&once), once);
    }
}

#[test]
fn block_without_end_is_no_block() {
    let text = format!(":rev({SHA}:/some/path");
    assert_eq!(convert_rev_syntax(&text), text);
}

#[test]
fn block_ends_at_its_first_closing_bracket() {
    assert_eq!(
        convert_rev_syntax(&format!(":rev({SHA}:/a),{SHA}:/b)")),
        format!(":rev(<={SHA}:/a),{SHA}:/b)"),
    );
}

#[test]
fn sha_needs_delimiter_length_and_case() {
    for text in [
        format!(":rev( {SHA}:/a)"),
        format!(":rev({}:/a)", &SHA[1..]),
        format!(":rev({SHA}0:/a)"),
        format!(":rev({}:/a)", SHA.to_uppercase()),
        format!(":rev({SHA} :/a)"),
    ] {
        assert_eq!(convert_rev_syntax(&text), text);
    }
}

#[test]
fn inner_bracket_is_a_delimiter() {
    assert_eq!(
        convert_rev_syntax(&format!(":rev(a({NULL}:/b,\u{e9},{SHA}:\n/c):/d")),
        format!(":rev(a(_:/b,\u{e9},<={SHA}:\n/c):/d"),
    );
}

fn config(path: Option<&str>, filter: Option<&str>, version: FilterVersion) -> JoshConfig {
    JoshConfig {
        path: path.map(str::to_string),
        filter: filter.map(str::to_string),
        filter_version: version,
        ..JoshConfig::initial("rust-lang")
    }
}

#[test]
fn current_filters_are_taken_as_they_are() {
    assert_eq!(
        construct_josh_filter(&config(Some("src/doc"), None, FilterVersion::Version2)),
        ":/src/doc",
    );
    let rev = format!(":rev({SHA}:/a)");
    assert_eq!(
        construct_josh_filter(&config(None, Some(&rev), FilterVersion::Version2)),
        rev,
    );
}

#[test]
fn legacy_filters_are_converted_and_wrapped() {
    assert_eq!(
        construct_josh_filter(&config(Some("src/doc"), None, FilterVersion::Version1)),
        ":~(history=\"keep-trivial-merges\",gpgsig=\"norm-lf\")[:/src/doc]",
    );
    assert_eq!(
        construct_josh_filter(&config(
            None,
            Some(&format!(":rev({SHA}:/a)")),
            FilterVersion::Version1
        )),
        format!(":~(history=\"keep-trivial-merges\",gpgsig=\"norm-lf\")[:rev(<={SHA}:/a)]"),
    );
}
