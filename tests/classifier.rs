use git2::Delta;
use hera::{
    any_code_changes, build_patterns, classify_line, line_is_code, line_range, ChangeError,
    Changes, FileChanges, LanguageSyntax,
};
use tokei::LanguageType;

fn side(path: &str, lines: &[u32]) -> FileChanges {
    let mut s = FileChanges::new(Some(path.to_string()), Delta::Modified);
    for n in lines {
        s.push_line(*n);
    }
    s
}

fn rust() -> Option<LanguageSyntax> {
    Some(LanguageSyntax::from_language(LanguageType::Rust))
}

fn lang(l: LanguageType) -> Option<LanguageSyntax> {
    Some(LanguageSyntax::from_language(l))
}

#[test]
fn code_line_changed() {
    let added = side("lib.rs", &[2]);
    assert_eq!(added.has_code_changes(&rust(), &None, "Hello\nWorld"), Ok(true));
}

#[test]
fn comment_line_changed() {
    let added = side("lib.rs", &[2]);
    assert_eq!(added.has_code_changes(&rust(), &None, "// Hello\n// World"), Ok(false));
}

#[test]
fn code_between_multi_line_changed() {
    let removed = side("lib.rs", &[2]);
    let added = side("lib.rs", &[2]);
    assert_eq!(
        removed.has_code_changes(&rust(), &None, "/*Hello*/\nWorld\n/*!!!!*/\n"),
        Ok(true)
    );
    assert_eq!(
        added.has_code_changes(&rust(), &None, "/*Hello*/\nHello World\n/*!!!!*/\n"),
        Ok(true)
    );
}

#[test]
fn code_in_example_block_changed() {
    let removed = side("lib.rs", &[3]);
    assert_eq!(
        removed.has_code_changes(&rust(), &None, "/// ```\nHello\nWorld\n/// ```\n"),
        Ok(true)
    );
}

#[test]
fn comment_added_to_code() {
    let added = side("lib.rs", &[2]);
    assert_eq!(added.has_code_changes(&rust(), &None, "Hello\n// World\n"), Ok(false));
}

#[test]
fn new_code_file() {
    let added = side("lib.c", &[1, 2]);
    assert_eq!(added.has_code_changes(&lang(LanguageType::C), &None, "Hello\n// World\n"), Ok(true));
}

#[test]
fn new_filtered_file() {
    let filter = Some(vec![LanguageType::Rust, LanguageType::C]);
    let added = side("script.py", &[1, 2]);
    let python = lang(LanguageType::Python);
    assert!(!added.needs_text(&python, &filter));
    assert_eq!(added.has_code_changes(&python, &filter, "Hello\nWorld\n"), Ok(false));
    assert_eq!(added.has_code_changes(&python, &None, "Hello\nWorld\n"), Ok(true));
}

#[test]
fn filtered_side_leaves_overall_verdict() {
    let filter = Some(vec![LanguageType::Rust, LanguageType::C]);
    let sides = vec![side("script.py", &[1]), side("lib.rs", &[1])];
    let languages = vec![lang(LanguageType::Python), rust()];
    let texts = vec!["print(1)\n".to_string(), "// note\n".to_string()];
    assert_eq!(any_code_changes(&sides, &languages, &texts, &filter), Ok(false));
    let sides = vec![side("script.py", &[1]), side("lib.rs", &[1])];
    let texts = vec!["print(1)\n".to_string(), "fn main() {}\n".to_string()];
    assert_eq!(any_code_changes(&sides, &languages, &texts, &filter), Ok(true));
}

#[test]
fn any_code_changes_stops_at_first_code_side() {
    let sides = vec![side("a.rs", &[1]), side("b.rs", &[9])];
    let languages = vec![rust(), rust()];
    let texts = vec!["let x = 1;\n".to_string(), "x\n".to_string()];
    assert_eq!(any_code_changes(&sides, &languages, &texts, &None), Ok(true));
    let sides = vec![side("a.rs", &[1]), side("b.rs", &[9])];
    let texts = vec!["// x\n".to_string(), "x\n".to_string()];
    assert_eq!(
        any_code_changes(&sides, &languages, &texts, &None),
        Err(ChangeError::LineOutOfRange(9))
    );
    assert_eq!(any_code_changes(&vec![], &vec![], &vec![], &None), Ok(false));
}

#[test]
fn unknown_language_is_a_change() {
    let added = side("data.unknownext", &[1]);
    assert_eq!(added.has_code_changes(&None, &None, ""), Ok(true));
    assert!(!added.needs_text(&None, &None));
}

#[test]
fn missing_path_is_no_change() {
    let mut s = FileChanges::new(None, Delta::Added);
    s.push_line(1);
    assert_eq!(s.has_code_changes(&rust(), &None, "code\n"), Ok(false));
    assert_eq!(s.has_code_changes(&None, &None, "code\n"), Ok(false));
}

#[test]
fn line_beyond_text_is_an_error() {
    let added = side("lib.rs", &[3]);
    assert_eq!(
        added.has_code_changes(&rust(), &None, "a\nb\n"),
        Err(ChangeError::LineOutOfRange(3))
    );
    let zero = side("lib.rs", &[0]);
    assert_eq!(
        zero.has_code_changes(&rust(), &None, "a\n"),
        Err(ChangeError::LineOutOfRange(0))
    );
}

#[test]
fn block_comment_prose_is_not_code() {
    let added = side("lib.rs", &[1]);
    // The pattern is sought in the whole text: the same words inside a block
    // comment elsewhere make the line prose.
    assert_eq!(added.has_code_changes(&rust(), &None, "note\n/* note */\n"), Ok(false));
    assert_eq!(added.has_code_changes(&rust(), &None, "note\n"), Ok(true));
    let syn = LanguageSyntax::from_language(LanguageType::Rust);
    assert_eq!(line_is_code("World", &syn, "/* Hello World */\n"), Ok(false));
}

#[test]
fn fenced_example_in_line_comments_is_code() {
    let syn = LanguageSyntax::from_language(LanguageType::Rust);
    let text = "// ```let x = 1;\n// ```\n";
    assert_eq!(line_is_code("x = 1", &syn, text), Ok(true));
    // The marker line itself stays a comment.
    assert_eq!(line_is_code("// ```let x = 1;", &syn, text), Ok(false));
}

#[test]
fn fenced_example_in_block_comment_is_code() {
    let syn = LanguageSyntax::from_language(LanguageType::C);
    assert_eq!(line_is_code("run()", &syn, "/* ```run()``` */\n"), Ok(true));
}

#[test]
fn patterns_are_escaped_and_ordered() {
    let syn = LanguageSyntax::new(
        LanguageType::C,
        vec!["//".to_string()],
        vec![("/*".to_string(), "*/".to_string())],
        false,
    );
    let (pats, boundary) = build_patterns("a.b", &syn);
    assert_eq!(boundary, 2);
    assert_eq!(
        pats,
        vec![
            "(?m)^// ```.*a\\.b.*\\n// ```".to_string(),
            "/\\* ```.*a\\.b.*```.*\\*/".to_string(),
            "/\\*.*a\\.b.*\\*/".to_string(),
        ]
    );
    let rust = LanguageSyntax::from_language(LanguageType::Rust);
    let (pats, boundary) = build_patterns("x", &rust);
    assert_eq!(boundary, 3);
    assert_eq!(pats.len(), 4);
    assert_eq!(pats[2], "(?m)^/// ```.*x.*\\n/// ```".to_string());
}

#[test]
fn classify_line_decision_rule() {
    let syn = LanguageSyntax::new(
        LanguageType::C,
        vec!["//".to_string()],
        vec![("/*".to_string(), "*/".to_string())],
        false,
    );
    // boundary is 2: indices 0 and 1 are code patterns, 2 a comment pattern
    assert!(classify_line("x", &syn, &vec![]));
    assert!(classify_line("x", &syn, &vec![0]));
    assert!(classify_line("x", &syn, &vec![1, 2]));
    assert!(!classify_line("x", &syn, &vec![2]));
    assert!(!classify_line("// x", &syn, &vec![]));
    assert!(!classify_line("// x", &syn, &vec![0]));
}

#[test]
fn lines_are_split_like_str_lines() {
    let t: Vec<char> = "a\r\nbc\n\nd".chars().collect();
    assert_eq!(line_range(&t, 1), Some((0, 1)));
    assert_eq!(line_range(&t, 2), Some((3, 5)));
    assert_eq!(line_range(&t, 3), Some((6, 6)));
    assert_eq!(line_range(&t, 4), Some((7, 8)));
    assert_eq!(line_range(&t, 5), None);
    assert_eq!(line_range(&t, 0), None);
    let e: Vec<char> = "x\n".chars().collect();
    assert_eq!(line_range(&e, 2), None);
}

#[test]
fn changes_start_without_lines() {
    let c = Changes::new(None, Some("lib.rs".to_string()), Delta::Added);
    assert!(c.removed.lines.is_empty());
    assert!(c.added.lines.is_empty());
    assert_eq!(c.removed.path, None);
    assert_eq!(c.added.path, Some("lib.rs".to_string()));
}

#[test]
fn empty_grammar_makes_every_line_code() {
    let syn = LanguageSyntax::new(LanguageType::Text, vec![], vec![], false);
    let (pats, boundary) = build_patterns("World", &syn);
    assert!(pats.is_empty());
    assert_eq!(boundary, 0);
    assert_eq!(line_is_code("World", &syn, "Hello\nWorld"), Ok(true));
    let added = side("notes.txt", &[2]);
    assert_eq!(added.has_code_changes(&Some(syn), &None, "Hello\nWorld"), Ok(true));
}

#[test]
fn oversized_pattern_is_an_error() {
    let syn = LanguageSyntax::from_language(LanguageType::Rust);
    let line = "ab".repeat(750_000);
    assert_eq!(line_is_code(&line, &syn, ""), Err(ChangeError::InvalidPattern));
}
