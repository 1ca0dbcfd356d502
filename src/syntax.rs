//! The comment grammar of a language, read from tokei's language table.
use vstd::prelude::*;
use tokei::LanguageType;

verus! {

#[verifier::external_type_specification]
#[verifier::external_body]
pub struct ExLanguageType(LanguageType);

/// What the classifier needs to know of a language: the markers that open a
/// line comment, the delimiter pairs of block comments (nested ones included),
/// and whether fenced examples in `///` documentation are compiled code.
pub struct LanguageSyntax {
    pub language: LanguageType,
    pub line_comments: Vec<String>,
    pub block_comments: Vec<(String, String)>,
    pub doc_tests: bool,
}

impl LanguageSyntax {
    /// The line-comment markers, as character sequences.
    pub open spec fn prefixes(&self) -> Seq<Seq<char>> {
        self.line_comments@.map_values(|s: String| s@)
    }

    /// The block-comment delimiter pairs, as character sequences.
    pub open spec fn pairs(&self) -> Seq<(Seq<char>, Seq<char>)> {
        self.block_comments@.map_values(|p: (String, String)| (p.0@, p.1@))
    }

    /// A grammar given by its parts.
    pub fn new(
        language: LanguageType,
        line_comments: Vec<String>,
        block_comments: Vec<(String, String)>,
        doc_tests: bool,
    ) -> (r: LanguageSyntax)
        ensures
            r.language == language,
            r.line_comments@ == line_comments@,
            r.block_comments@ == block_comments@,
            r.doc_tests == doc_tests,
    {
        LanguageSyntax { language, line_comments, block_comments, doc_tests }
    }

    /// The grammar that tokei records for `language`: its line comments, its
    /// block comments followed by its nested comments, and the doc-test
    /// convention for Rust.
    pub fn from_language(language: LanguageType) -> (r: LanguageSyntax)
        ensures
            r.language == language,
    {
        let line_comments = line_comments_of(language);
        let mut block_comments = multi_line_comments_of(language);
        let nested = nested_comments_of(language);
        let mut i: usize = 0;
        while i < nested.len()
            invariant
                i <= nested.len(),
            decreases nested.len() - i,
        {
            let pair = (nested[i].0.clone(), nested[i].1.clone());
            block_comments.push(pair);
            i = i + 1;
        }
        let doc_tests = is_rust(language);
        LanguageSyntax { language, line_comments, block_comments, doc_tests }
    }
}

/// Relies on tokei's `LanguageType::line_comments`: the markers that open a
/// line comment in the language.
#[verifier::external_body]
fn line_comments_of(l: LanguageType) -> Vec<String> {
    l.line_comments().iter().map(|c| c.to_string()).collect()
}

/// Relies on tokei's `LanguageType::multi_line_comments`: the language's
/// block-comment delimiter pairs.
#[verifier::external_body]
fn multi_line_comments_of(l: LanguageType) -> Vec<(String, String)> {
    l.multi_line_comments().iter().map(|p| (p.0.to_string(), p.1.to_string())).collect()
}

/// Relies on tokei's `LanguageType::nested_comments`: the language's nested
/// block-comment delimiter pairs.
#[verifier::external_body]
fn nested_comments_of(l: LanguageType) -> Vec<(String, String)> {
    l.nested_comments().iter().map(|p| (p.0.to_string(), p.1.to_string())).collect()
}

/// Relies on tokei's `LanguageType` variants: whether `l` is `Rust`, the one
/// language with the doc-test convention.
#[verifier::external_body]
fn is_rust(l: LanguageType) -> bool {
    matches!(l, LanguageType::Rust)
}

/// Relies on the `PartialEq` that tokei derives for `LanguageType`, a
/// field-less enum: two values are equal exactly when they are the same
/// variant.
#[verifier::external_body]
pub(crate) fn same_language(a: LanguageType, b: LanguageType) -> (r: bool)
    ensures
        r == (a == b),
{
    a == b
}

} // verus!
