use binding_ir::comment::normalize;

fn text(raw: &str) -> Option<String> {
    normalize(raw)
}

#[test]
fn test_doc_comment() {
    assert_eq!(
        text("/// Doc comment\n            ///\n            ///  * with three slashes"),
        Some("Doc comment\n\n * with three slashes".to_string())
    );
    assert_eq!(
        text("//! Doc comment\n            //!\n            //!  * with slashes and bang"),
        Some("Doc comment\n\n * with slashes and bang".to_string())
    );
    assert_eq!(
        text("/** Multiline comment\n\n                * with two stars */"),
        Some("Multiline comment\n\n with two stars ".to_string())
    );
    assert_eq!(
        text("// Line comment\n            //\n            //  * with two slashes"),
        Some("Line comment\n\n * with two slashes".to_string())
    );
    assert_eq!(
        text("/* Multiline comment\n\n                * with one star */"),
        Some("Multiline comment\n\n with one star ".to_string())
    );
}

#[test]
fn test_doc_comment_vs_tooling_directives() {
    assert_eq!(
        text("// Doc comment for `f1`\n            // NOLINTNEXTLINE(google3-readability-pass-trivial-by-value)"),
        Some("Doc comment for `f1`".to_string())
    );
    assert_eq!(
        text("// Doc comment for `f2`\n            // // NOLINT"),
        Some("Doc comment for `f2`".to_string())
    );
    assert_eq!(text("// // NOLINT"), None);
    assert_eq!(
        text("// Mid-sentence usage: [...] this is why we need NOLINT / virtual [...]."),
        Some("Mid-sentence usage: [...] this is why we need NOLINT / virtual [...].".to_string())
    );
    assert_eq!(
        text("// No closing paren still suppresses\n            // NOLINTNEXTLINE(google3-readability"),
        Some("No closing paren still suppresses".to_string())
    );
    assert_eq!(
        text("// Multiple, comma-separated directives listed in parens\n            // NOLINTNEXTLINE(foo,bar)"),
        Some("Multiple, comma-separated directives listed in parens".to_string())
    );
}
