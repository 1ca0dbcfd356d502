//! The patterns that place one changed line inside a comment or inside a
//! fenced example, built from the line's text and the language's grammar.
use vstd::prelude::*;
use vstd::string::*;
use crate::syntax::LanguageSyntax;

verus! {

/// The characters that `regex::escape` prefixes with a backslash.
pub open spec fn is_meta(c: char) -> bool {
    c == '\\' || c == '.' || c == '+' || c == '*' || c == '?' || c == '(' || c == ')'
        || c == '|' || c == '[' || c == ']' || c == '{' || c == '}' || c == '^' || c == '$'
        || c == '#' || c == '&' || c == '-' || c == '~'
}

/// `s` written as a regular expression that matches exactly `s`.
pub open spec fn escaped(s: Seq<char>) -> Seq<char>
    decreases s.len(),
{
    if s.len() == 0 {
        seq![]
    } else if is_meta(s[0]) {
        seq!['\\', s[0]] + escaped(s.skip(1))
    } else {
        seq![s[0]] + escaped(s.skip(1))
    }
}

/// Relies on `regex::escape`: each meta character gets a backslash in front,
/// every other character is kept.
#[verifier::external_body]
fn escape(s: &str) -> (r: String)
    ensures
        r@ == escaped(s@),
{
    regex::escape(s)
}

/// `(?m)^`: the start of a line.
pub open spec fn line_start() -> Seq<char> {
    seq!['(', '?', 'm', ')', '^']
}

/// ` ```.*`: a fence opener, then anything on that line.
pub open spec fn fence_open() -> Seq<char> {
    seq![' ', '`', '`', '`', '.', '*']
}

/// `.*\n`: anything up to the end of the line, and the line break.
pub open spec fn to_next_line() -> Seq<char> {
    seq!['.', '*', '\\', 'n']
}

/// ` ````: a fence closer.
pub open spec fn fence_close() -> Seq<char> {
    seq![' ', '`', '`', '`']
}

/// `.*```.*`: a fence closer amid anything on the same line.
pub open spec fn fence_between() -> Seq<char> {
    seq!['.', '*', '`', '`', '`', '.', '*']
}

/// `.*`: anything on the same line.
pub open spec fn anything() -> Seq<char> {
    seq!['.', '*']
}

/// `///`: the marker of a documentation line.
pub open spec fn doc_marker() -> Seq<char> {
    seq!['/', '/', '/']
}

/// The line, already escaped as `el`, inside a fenced example that a run of
/// `prefix` comments opens and closes.
pub open spec fn line_fence_pattern(prefix: Seq<char>, el: Seq<char>) -> Seq<char> {
    line_start() + escaped(prefix) + fence_open() + el + to_next_line()
        + escaped(prefix) + fence_close()
}

/// The escaped line `el` inside a fenced example within a `start` ... `end`
/// block comment.
pub open spec fn block_fence_pattern(start: Seq<char>, end: Seq<char>, el: Seq<char>) -> Seq<
    char,
> {
    escaped(start) + fence_open() + el + fence_between() + escaped(end)
}

/// The escaped line `el` inside a fenced example of `///` documentation.
pub open spec fn doc_fence_pattern(el: Seq<char>) -> Seq<char> {
    line_start() + doc_marker() + fence_open() + el + to_next_line() + doc_marker()
        + fence_close()
}

/// The escaped line `el` anywhere inside a `start` ... `end` block comment.
pub open spec fn block_pattern(start: Seq<char>, end: Seq<char>, el: Seq<char>) -> Seq<char> {
    escaped(start) + anything() + el + anything() + escaped(end)
}

/// The patterns whose match makes the line an example, thus code: one per
/// line-comment marker, one per block-comment pair, and the doc-test one.
pub open spec fn code_patterns(line: Seq<char>, syn: LanguageSyntax) -> Seq<Seq<char>> {
    let el = escaped(line);
    syn.prefixes().map_values(|p: Seq<char>| line_fence_pattern(p, el)) + syn.pairs().map_values(
        |p: (Seq<char>, Seq<char>)| block_fence_pattern(p.0, p.1, el),
    ) + if syn.doc_tests {
        seq![doc_fence_pattern(el)]
    } else {
        seq![]
    }
}

/// The patterns whose match, alone, makes the line comment prose: one per
/// block-comment pair.
pub open spec fn comment_patterns(line: Seq<char>, syn: LanguageSyntax) -> Seq<Seq<char>> {
    let el = escaped(line);
    syn.pairs().map_values(|p: (Seq<char>, Seq<char>)| block_pattern(p.0, p.1, el))
}

/// All patterns for a line, code patterns first.
pub open spec fn patterns_of(line: Seq<char>, syn: LanguageSyntax) -> Seq<Seq<char>> {
    code_patterns(line, syn) + comment_patterns(line, syn)
}

/// The number of code patterns: an index below it is a code pattern.
pub open spec fn class_boundary(syn: LanguageSyntax) -> int {
    code_patterns(seq![], syn).len() as int
}

/// The characters of each string.
pub open spec fn views(v: Seq<String>) -> Seq<Seq<char>> {
    v.map_values(|s: String| s@)
}

fn line_fence(prefix: &String, el: &String) -> (r: String)
    ensures
        r@ == line_fence_pattern(prefix@, el@),
{
    let p = escape(prefix.as_str());
    let mut r = String::from_str("(?m)^");
    r.append(p.as_str());
    r.append(" ```.*");
    r.append(el.as_str());
    r.append(".*\\n");
    r.append(p.as_str());
    r.append(" ```");
    proof {
        reveal_strlit("(?m)^");
        reveal_strlit(" ```.*");
        reveal_strlit(".*\\n");
        reveal_strlit(" ```");
    }
    assert(r@ =~= line_fence_pattern(prefix@, el@));
    r
}

fn block_fence(start: &String, end: &String, el: &String) -> (r: String)
    ensures
        r@ == block_fence_pattern(start@, end@, el@),
{
    let mut r = escape(start.as_str());
    r.append(" ```.*");
    r.append(el.as_str());
    r.append(".*```.*");
    let e = escape(end.as_str());
    r.append(e.as_str());
    proof {
        reveal_strlit(" ```.*");
        reveal_strlit(".*```.*");
    }
    assert(r@ =~= block_fence_pattern(start@, end@, el@));
    r
}

fn doc_fence(el: &String) -> (r: String)
    ensures
        r@ == doc_fence_pattern(el@),
{
    let mut r = String::from_str("(?m)^/// ```.*");
    r.append(el.as_str());
    r.append(".*\\n/// ```");
    proof {
        reveal_strlit("(?m)^/// ```.*");
        reveal_strlit(".*\\n/// ```");
    }
    assert(r@ =~= doc_fence_pattern(el@));
    r
}

fn block(start: &String, end: &String, el: &String) -> (r: String)
    ensures
        r@ == block_pattern(start@, end@, el@),
{
    let mut r = escape(start.as_str());
    r.append(".*");
    r.append(el.as_str());
    r.append(".*");
    let e = escape(end.as_str());
    r.append(e.as_str());
    proof {
        reveal_strlit(".*");
    }
    assert(r@ =~= block_pattern(start@, end@, el@));
    r
}

/// The patterns for `line` in the grammar `syn`, code patterns first, and the
/// number of code patterns.
pub fn build_patterns(line: &str, syn: &LanguageSyntax) -> (r: (Vec<String>, usize))
    ensures
        views(r.0@) == patterns_of(line@, *syn),
        r.1 == class_boundary(*syn),
{
    let el = escape(line);
    let ghost code = code_patterns(line@, *syn);
    let ghost prose = comment_patterns(line@, *syn);
    let ghost n_lc = syn.line_comments@.len();
    let ghost n_bc = syn.block_comments@.len();
    let mut pats: Vec<String> = Vec::new();
    let mut i: usize = 0;
    while i < syn.line_comments.len()
        invariant
            el@ == escaped(line@),
            code == code_patterns(line@, *syn),
            n_lc == syn.line_comments@.len(),
            i <= n_lc,
            pats@.len() == i,
            forall|k: int| 0 <= k < i ==> #[trigger] pats@[k]@ == code[k],
        decreases n_lc - i,
    {
        let p = line_fence(&syn.line_comments[i], &el);
        pats.push(p);
        i = i + 1;
    }
    let mut j: usize = 0;
    while j < syn.block_comments.len()
        invariant
            el@ == escaped(line@),
            code == code_patterns(line@, *syn),
            n_lc == syn.line_comments@.len(),
            n_bc == syn.block_comments@.len(),
            j <= n_bc,
            pats@.len() == n_lc + j,
            forall|k: int| 0 <= k < n_lc + j ==> #[trigger] pats@[k]@ == code[k],
        decreases n_bc - j,
    {
        let p = block_fence(&syn.block_comments[j].0, &syn.block_comments[j].1, &el);
        pats.push(p);
        j = j + 1;
    }
    if syn.doc_tests {
        let p = doc_fence(&el);
        pats.push(p);
    }
    let boundary = pats.len();
    assert(views(pats@) =~= code);
    let mut j: usize = 0;
    while j < syn.block_comments.len()
        invariant
            el@ == escaped(line@),
            code == code_patterns(line@, *syn),
            prose == comment_patterns(line@, *syn),
            n_bc == syn.block_comments@.len(),
            boundary == code.len(),
            j <= n_bc,
            pats@.len() == boundary + j,
            forall|k: int| 0 <= k < boundary ==> #[trigger] pats@[k]@ == code[k],
            forall|k: int| boundary <= k < boundary + j ==> #[trigger] pats@[k]@ == prose[k - boundary],
        decreases n_bc - j,
    {
        let p = block(&syn.block_comments[j].0, &syn.block_comments[j].1, &el);
        pats.push(p);
        j = j + 1;
    }
    assert(views(pats@) =~= patterns_of(line@, *syn));
    (pats, boundary)
}

} // verus!
