//! Deciding whether one changed line is code, from the patterns that match
//! anywhere in the file's text.
use vstd::prelude::*;
use crate::pattern::{build_patterns, class_boundary, escaped, line_fence_pattern, patterns_of, views};
use crate::syntax::LanguageSyntax;

verus! {

#[verifier::external_type_specification]
#[verifier::external_body]
pub struct ExRegexError(regex::Error);

/// Why a side of a change could not be classified.
#[derive(Clone, Copy, Debug, PartialEq, Eq, Structural)]
pub enum ChangeError {
    /// A changed line number that the file's text does not have.
    LineOutOfRange(u32),
    /// The patterns built for a line do not compile.
    InvalidPattern,
}

/// Whether `RegexSet::new` accepts these patterns.
pub uninterp spec fn regex_set_builds(patterns: Seq<Seq<char>>) -> bool;

/// The indices of the patterns that `RegexSet::matches` finds in `text`.
pub uninterp spec fn regex_set_matches(patterns: Seq<Seq<char>>, text: Seq<char>) -> Set<usize>;

/// Relies on `regex::RegexSet::new`, which accepts or refuses the patterns on
/// the patterns alone, and on `RegexSet::matches`, whose result lists the
/// indices of the patterns that match somewhere in the text.
#[verifier::external_body]
fn match_patterns(patterns: &Vec<String>, text: &str) -> (r: Result<Vec<usize>, regex::Error>)
    ensures
        r is Ok <==> regex_set_builds(views(patterns@)),
        r matches Ok(m) ==> m@.to_set() == regex_set_matches(views(patterns@), text@),
{
    match regex::RegexSet::new(patterns) {
        Ok(set) => Ok(set.matches(text).into_iter().collect()),
        Err(e) => Err(e),
    }
}

/// The line begins with one of the language's line-comment markers.
pub open spec fn starts_with_comment(line: Seq<char>, syn: LanguageSyntax) -> bool {
    exists|k: int| 0 <= k < syn.prefixes().len() && #[trigger] syn.prefixes()[k].is_prefix_of(line)
}

/// Some pattern matched.
pub open spec fn any_match(matched: Set<usize>) -> bool {
    exists|i: usize| matched.contains(i)
}

/// Some code pattern matched.
pub open spec fn code_match(matched: Set<usize>, syn: LanguageSyntax) -> bool {
    exists|i: usize| matched.contains(i) && i < class_boundary(syn)
}

/// A line is code when a code pattern matched or none matched at all, and the
/// line is not itself a line comment.
pub open spec fn is_code(line: Seq<char>, syn: LanguageSyntax, matched: Set<usize>) -> bool {
    (code_match(matched, syn) || !any_match(matched)) && !starts_with_comment(line, syn)
}

/// The verdict on one changed line, given the whole text of its file.
pub open spec fn line_verdict(line: Seq<char>, syn: LanguageSyntax, text: Seq<char>) -> Result<
    bool,
    ChangeError,
> {
    let pats = patterns_of(line, syn);
    if regex_set_builds(pats) {
        Ok(is_code(line, syn, regex_set_matches(pats, text)))
    } else {
        Err(ChangeError::InvalidPattern)
    }
}

fn starts_with(line: &str, prefix: &str) -> (r: bool)
    ensures
        r == prefix@.is_prefix_of(line@),
{
    let n = prefix.unicode_len();
    let m = line.unicode_len();
    if n > m {
        return false;
    }
    let mut k: usize = 0;
    while k < n
        invariant
            n == prefix@.len(),
            m == line@.len(),
            n <= m,
            k <= n,
            forall|j: int| 0 <= j < k ==> prefix@[j] == line@[j],
        decreases n - k,
    {
        if prefix.get_char(k) != line.get_char(k) {
            return false;
        }
        k = k + 1;
    }
    assert(prefix@ =~= line@.subrange(0, n as int));
    true
}

fn is_code_pattern(i: usize, syn: &LanguageSyntax) -> (r: bool)
    ensures
        r == (i < class_boundary(*syn)),
{
    let a = syn.line_comments.len();
    if i < a {
        return true;
    }
    let rest = i - a;
    let b = syn.block_comments.len();
    if rest < b {
        return true;
    }
    syn.doc_tests && rest - b == 0
}

/// Whether `line` is code, given the indices of the patterns that matched.
pub fn classify_line(line: &str, syn: &LanguageSyntax, matched: &Vec<usize>) -> (r: bool)
    ensures
        r == is_code(line@, *syn, matched@.to_set()),
{
    let mut comment = false;
    let mut i: usize = 0;
    while i < syn.line_comments.len()
        invariant
            i <= syn.line_comments@.len(),
            comment == exists|k: int| 0 <= k < i && #[trigger] syn.prefixes()[k].is_prefix_of(line@),
        decreases syn.line_comments@.len() - i,
    {
        assert(syn.prefixes()[i as int] == syn.line_comments@[i as int]@);
        if starts_with(line, syn.line_comments[i].as_str()) {
            comment = true;
        }
        assert(comment == exists|k: int| 0 <= k < i + 1 && #[trigger] syn.prefixes()[k].is_prefix_of(line@)) by {
            if syn.prefixes()[i as int].is_prefix_of(line@) {
                assert(comment);
            }
        }
        i = i + 1;
    }
    let mut code = false;
    let mut j: usize = 0;
    while j < matched.len()
        invariant
            j <= matched@.len(),
            code == exists|k: int| 0 <= k < j && #[trigger] matched@[k] < class_boundary(*syn),
        decreases matched@.len() - j,
    {
        if is_code_pattern(matched[j], syn) {
            code = true;
        }
        j = j + 1;
    }
    let ghost set = matched@.to_set();
    assert(code == code_match(set, *syn)) by {
        if code {
            let k = choose|k: int| 0 <= k < matched@.len() && #[trigger] matched@[k] < class_boundary(*syn);
            assert(set.contains(matched@[k]));
        }
        if code_match(set, *syn) {
            let i = choose|i: usize| set.contains(i) && i < class_boundary(*syn);
            let k = choose|k: int| 0 <= k < matched@.len() && matched@[k] == i;
            assert(matched@[k] < class_boundary(*syn));
        }
    }
    assert(any_match(set) == (matched.len() > 0)) by {
        if matched.len() > 0 {
            assert(set.contains(matched@[0]));
        }
    }
    (code || matched.len() == 0) && !comment
}

/// Whether `line` is code in a file whose whole text is `text`.
pub fn line_is_code(line: &str, syn: &LanguageSyntax, text: &str) -> (r: Result<bool, ChangeError>)
    ensures
        r == line_verdict(line@, *syn, text@),
{
    let (pats, _boundary) = build_patterns(line, syn);
    match match_patterns(&pats, text) {
        Ok(matched) => Ok(classify_line(line, syn, &matched)),
        Err(_) => Err(ChangeError::InvalidPattern),
    }
}

/// A line that a fenced example in a run of line comments encloses, and that
/// is not itself a line comment, is code: the `k`th pattern is the fence of
/// the `k`th line-comment marker, and its match makes the line code.
pub proof fn fenced_line_is_code(line: Seq<char>, syn: LanguageSyntax, text: Seq<char>, k: int)
    requires
        0 <= k < syn.prefixes().len(),
        regex_set_matches(patterns_of(line, syn), text).contains(k as usize),
        !starts_with_comment(line, syn),
    ensures
        patterns_of(line, syn)[k] == line_fence_pattern(syn.prefixes()[k], escaped(line)),
        is_code(line, syn, regex_set_matches(patterns_of(line, syn), text)),
        regex_set_builds(patterns_of(line, syn)) ==> line_verdict(line, syn, text) == Ok::<bool, ChangeError>(true),
{
    let m = regex_set_matches(patterns_of(line, syn), text);
    assert(m.contains(k as usize) && (k as usize) < class_boundary(syn));
}

/// A line that only block-comment patterns find, with no fenced example
/// around it, is not code.
pub proof fn block_comment_line_is_not_code(line: Seq<char>, syn: LanguageSyntax, text: Seq<char>)
    requires
        any_match(regex_set_matches(patterns_of(line, syn), text)),
        forall|i: usize|
            #[trigger] regex_set_matches(patterns_of(line, syn), text).contains(i) ==> i
                >= class_boundary(syn),
    ensures
        !is_code(line, syn, regex_set_matches(patterns_of(line, syn), text)),
        regex_set_builds(patterns_of(line, syn)) ==> line_verdict(line, syn, text) == Ok::<bool, ChangeError>(false),
{
}

/// A line that begins with a line-comment marker is not code, whatever
/// patterns matched.
pub proof fn comment_line_is_not_code(
    line: Seq<char>,
    syn: LanguageSyntax,
    text: Seq<char>,
    matched: Set<usize>,
)
    requires
        starts_with_comment(line, syn),
    ensures
        !is_code(line, syn, matched),
        line_verdict(line, syn, text) != Ok::<bool, ChangeError>(true),
{
}

/// A line that no pattern matches, and that is not a line comment, is code.
pub proof fn unmatched_line_is_code(line: Seq<char>, syn: LanguageSyntax, text: Seq<char>)
    requires
        !any_match(regex_set_matches(patterns_of(line, syn), text)),
        !starts_with_comment(line, syn),
    ensures
        is_code(line, syn, regex_set_matches(patterns_of(line, syn), text)),
        regex_set_builds(patterns_of(line, syn)) ==> line_verdict(line, syn, text) == Ok::<bool, ChangeError>(true),
{
}

} // verus!
