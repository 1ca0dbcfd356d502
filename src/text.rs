//! Splitting a text into lines the way `str::lines` does.
use vstd::prelude::*;

verus! {

/// Index of the first line feed at or after `from`, or the text's length when
/// there is none.
pub open spec fn next_break(t: Seq<char>, from: int) -> int
    decreases t.len() - from,
{
    if from >= t.len() {
        t.len() as int
    } else if t[from] == '\n' {
        from
    } else {
        next_break(t, from + 1)
    }
}

/// The line that runs from `start` to the break at `end`, without its
/// terminator: a carriage return just before a line feed belongs to it.
pub open spec fn line_between(t: Seq<char>, start: int, end: int) -> Seq<char> {
    if end < t.len() && end > start && t[end - 1] == '\r' {
        t.subrange(start, end - 1)
    } else {
        t.subrange(start, end)
    }
}

/// The lines of `t` that begin at or after `start`.
pub open spec fn lines_from(t: Seq<char>, start: int) -> Seq<Seq<char>>
    decreases t.len() + 1 - start,
{
    if start < 0 || start >= t.len() {
        seq![]
    } else {
        let end = next_break(t, start);
        proof {
            lemma_next_break_bounds(t, start);
        }
        seq![line_between(t, start, end)] + lines_from(t, end + 1)
    }
}

/// The lines of a text: split at each line feed, a final line feed ends the
/// last line rather than starting an empty one.
pub open spec fn lines_of(t: Seq<char>) -> Seq<Seq<char>> {
    lines_from(t, 0)
}

pub proof fn lemma_next_break_bounds(t: Seq<char>, from: int)
    requires
        0 <= from,
    ensures
        from <= t.len() ==> from <= next_break(t, from) <= t.len(),
        next_break(t, from) < t.len() ==> t[next_break(t, from)] == '\n',
    decreases t.len() - from,
{
    if from < t.len() && t[from] != '\n' {
        lemma_next_break_bounds(t, from + 1);
    }
}

/// Relies on `str::chars`: it yields the characters of the text in order.
#[verifier::external_body]
pub(crate) fn chars_of(s: &str) -> (r: Vec<char>)
    ensures
        r@ == s@,
{
    s.chars().collect()
}

/// Where the `n`th line (counting from one) of the text stands, as a range of
/// character positions; `None` when the text has no such line.
pub fn line_range(chars: &Vec<char>, n: u32) -> (r: Option<(usize, usize)>)
    ensures
        r is Some <==> 1 <= n <= lines_of(chars@).len(),
        r matches Some((a, b)) ==> a <= b <= chars@.len()
            && chars@.subrange(a as int, b as int) == lines_of(chars@)[n - 1],
{
    let ghost t = chars@;
    let len = chars.len();
    if n == 0 {
        return None;
    }
    let mut pos: usize = 0;
    let mut k: u32 = 1;
    let ghost mut done: Seq<Seq<char>> = seq![];
    assert(done + lines_from(t, 0) =~= lines_of(t));
    loop
        invariant
            t == chars@,
            len == t.len(),
            1 <= k <= n,
            pos <= len,
            done.len() == k - 1,
            done + lines_from(t, pos as int) == lines_of(t),
        decreases len - pos,
    {
        if pos >= len {
            assert(lines_of(t) =~= done);
            return None;
        }
        let mut j: usize = pos;
        while j < len && chars[j] != '\n'
            invariant
                t == chars@,
                len == t.len(),
                pos <= j <= len,
                next_break(t, pos as int) == next_break(t, j as int),
            decreases len - j,
        {
            j = j + 1;
        }
        let ghost line = line_between(t, pos as int, j as int);
        assert(lines_from(t, pos as int) == seq![line] + lines_from(t, j + 1));
        let end = if j < len && j > pos && chars[j - 1] == '\r' {
            j - 1
        } else {
            j
        };
        if k == n {
            assert(lines_of(t)[n - 1] == line);
            assert(chars@.subrange(pos as int, end as int) =~= line);
            return Some((pos, end));
        }
        if j >= len {
            assert(lines_from(t, j + 1) =~= Seq::<Seq<char>>::empty());
            assert(lines_of(t) =~= done.push(line));
            return None;
        }
        proof {
            assert(done + lines_from(t, pos as int) =~= done.push(line) + lines_from(t, j + 1));
            done = done.push(line);
        }
        pos = j + 1;
        k = k + 1;
    }
}

} // verus!
