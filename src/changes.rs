//! The changed lines of each side of a changed file, and the verdict on them.
use vstd::prelude::*;
use vstd::string::*;
use git2::Delta;
use tokei::LanguageType;
use crate::classify::{line_is_code, line_verdict, ChangeError};
use crate::pattern::views;
use crate::syntax::{same_language, LanguageSyntax};
use crate::text::{chars_of, line_range, lines_of};

verus! {

#[verifier::external_type_specification]
#[verifier::external_body]
pub struct ExDelta(Delta);

/// One side (old or new) of a changed file: the lines touched on that side,
/// where the file stands on disk if it exists on that side, and the status of
/// the change.
pub struct FileChanges {
    pub lines: Vec<u32>,
    pub path: Option<String>,
    pub status: Delta,
}

/// Both sides of one changed file.
pub struct Changes {
    pub removed: FileChanges,
    pub added: FileChanges,
}

impl Changes {
    /// The two sides of a change with status `status`, with no line recorded yet.
    pub fn new(old_path: Option<String>, new_path: Option<String>, status: Delta) -> (r: Changes)
        ensures
            r.removed.lines@ == Seq::<u32>::empty(),
            r.removed.path == old_path,
            r.removed.status == status,
            r.added.lines@ == Seq::<u32>::empty(),
            r.added.path == new_path,
            r.added.status == status,
    {
        Changes {
            removed: FileChanges::new(old_path, status),
            added: FileChanges::new(new_path, status),
        }
    }
}

/// The filter is set and leaves the language out.
pub open spec fn filtered_out(syn: LanguageSyntax, filter: Option<Vec<LanguageType>>) -> bool {
    excludes(filter, syn.language)
}

/// The filter is set and does not list `language`.
pub open spec fn excludes(filter: Option<Vec<LanguageType>>, language: LanguageType) -> bool {
    match filter {
        Some(f) => !f@.contains(language),
        None => false,
    }
}

/// The verdict on the listed lines, in order: the first line out of the text
/// or whose patterns do not compile is an error, the first code line makes it
/// `true`, and it is `false` when no line is code.
pub open spec fn lines_verdict(lines: Seq<u32>, syn: LanguageSyntax, text: Seq<char>) -> Result<
    bool,
    ChangeError,
>
    decreases lines.len(),
{
    if lines.len() == 0 {
        Ok(false)
    } else {
        let n = lines[0];
        if 1 <= n <= lines_of(text).len() {
            match line_verdict(lines_of(text)[n - 1], syn, text) {
                Err(e) => Err(e),
                Ok(true) => Ok(true),
                Ok(false) => lines_verdict(lines.skip(1), syn, text),
            }
        } else {
            Err(ChangeError::LineOutOfRange(n))
        }
    }
}

/// The side needs its file's text: it has a path, its language is known and
/// the filter keeps it.
pub open spec fn reads_text(
    side: FileChanges,
    language: Option<LanguageSyntax>,
    filter: Option<Vec<LanguageType>>,
) -> bool {
    match language {
        Some(syn) => side.path is Some && !filtered_out(syn, filter),
        None => false,
    }
}

/// The verdict on one side: no change without a path, a change in a file of
/// unknown language, none in a file that the filter leaves out, and else the
/// verdict on its lines.
pub open spec fn side_verdict(
    side: FileChanges,
    language: Option<LanguageSyntax>,
    filter: Option<Vec<LanguageType>>,
    text: Seq<char>,
) -> Result<bool, ChangeError> {
    match language {
        None => Ok(side.path is Some),
        Some(syn) => if reads_text(side, language, filter) {
            lines_verdict(side.lines@, syn, text)
        } else {
            Ok(false)
        },
    }
}

fn filter_keeps(filter: &Option<Vec<LanguageType>>, language: LanguageType) -> (r: bool)
    ensures
        r == !excludes(*filter, language),
{
    match filter {
        None => true,
        Some(f) => {
            let mut i: usize = 0;
            while i < f.len()
                invariant
                    *filter == Some(*f),
                    i <= f@.len(),
                    forall|k: int| 0 <= k < i ==> f@[k] != language,
                decreases f@.len() - i,
            {
                if same_language(f[i], language) {
                    assert(f@[i as int] == language);
                    assert(f@.contains(language));
                    return true;
                }
                i = i + 1;
            }
            false
        },
    }
}

impl FileChanges {
    /// A side with no line recorded yet.
    pub fn new(path: Option<String>, status: Delta) -> (r: FileChanges)
        ensures
            r.lines@ == Seq::<u32>::empty(),
            r.path == path,
            r.status == status,
    {
        FileChanges { lines: Vec::new(), path, status }
    }

    /// Records that line `n` was touched on this side.
    pub fn push_line(&mut self, n: u32)
        ensures
            final(self).lines@ == old(self).lines@.push(n),
            final(self).path == old(self).path,
            final(self).status == old(self).status,
    {
        self.lines.push(n);
    }

    /// Whether the verdict on this side needs its file's text.
    pub fn needs_text(&self, language: &Option<LanguageSyntax>, filter: &Option<Vec<LanguageType>>) -> (r:
        bool)
        ensures
            r == reads_text(*self, *language, *filter),
    {
        match language {
            None => false,
            Some(syn) => self.path.is_some() && filter_keeps(filter, syn.language),
        }
    }

    /// Whether this side changed code, given its language (`None` when it is
    /// unknown), the language filter and the file's text on this side.
    pub fn has_code_changes(
        &self,
        language: &Option<LanguageSyntax>,
        filter: &Option<Vec<LanguageType>>,
        text: &str,
    ) -> (r: Result<bool, ChangeError>)
        ensures
            r == side_verdict(*self, *language, *filter, text@),
    {
        let syn = match language {
            None => {
                return Ok(self.path.is_some());
            },
            Some(syn) => syn,
        };
        if !self.needs_text(language, filter) {
            return Ok(false);
        }
        let chars = chars_of(text);
        let ghost all = self.lines@;
        let mut i: usize = 0;
        assert(all.skip(0) =~= all);
        while i < self.lines.len()
            invariant
                all == self.lines@,
                chars@ == text@,
                *language == Some(*syn),
                reads_text(*self, *language, *filter),
                i <= all.len(),
                lines_verdict(all, *syn, text@) == lines_verdict(all.skip(i as int), *syn, text@),
            decreases all.len() - i,
        {
            let n = self.lines[i];
            let ghost rest = all.skip(i as int);
            assert(rest[0] == n);
            assert(rest.skip(1) =~= all.skip(i + 1));
            assert(reads_text(*self, *language, *filter));
            assert(side_verdict(*self, *language, *filter, text@) == lines_verdict(rest, *syn, text@));
            match line_range(&chars, n) {
                None => {
                    return Err(ChangeError::LineOutOfRange(n));
                },
                Some((a, b)) => {
                    let line = text.substring_char(a, b);
                    match line_is_code(line, syn, text) {
                        Err(e) => {
                            return Err(e);
                        },
                        Ok(true) => {
                            return Ok(true);
                        },
                        Ok(false) => {},
                    }
                },
            }
            i = i + 1;
        }
        assert(all.skip(i as int) =~= Seq::<u32>::empty());
        Ok(false)
    }
}

/// The verdict over many sides, taken in order: the first error, or the first
/// side with a code change, decides it; it is `false` when no side changed
/// code.
pub open spec fn sides_verdict(
    sides: Seq<FileChanges>,
    languages: Seq<Option<LanguageSyntax>>,
    texts: Seq<Seq<char>>,
    filter: Option<Vec<LanguageType>>,
) -> Result<bool, ChangeError>
    decreases sides.len(),
{
    if sides.len() == 0 || languages.len() == 0 || texts.len() == 0 {
        Ok(false)
    } else {
        match side_verdict(sides[0], languages[0], filter, texts[0]) {
            Err(e) => Err(e),
            Ok(true) => Ok(true),
            Ok(false) => sides_verdict(sides.skip(1), languages.skip(1), texts.skip(1), filter),
        }
    }
}

/// Whether any of the sides changed code; `languages[i]` and `texts[i]` are
/// the language and the text of `sides[i]`.
pub fn any_code_changes(
    sides: &Vec<FileChanges>,
    languages: &Vec<Option<LanguageSyntax>>,
    texts: &Vec<String>,
    filter: &Option<Vec<LanguageType>>,
) -> (r: Result<bool, ChangeError>)
    requires
        languages@.len() == sides@.len(),
        texts@.len() == sides@.len(),
    ensures
        r == sides_verdict(sides@, languages@, views(texts@), *filter),
{
    let ghost ts = views(texts@);
    let mut i: usize = 0;
    assert(sides@.skip(0) =~= sides@ && languages@.skip(0) =~= languages@ && ts.skip(0) =~= ts);
    while i < sides.len()
        invariant
            languages@.len() == sides@.len(),
            texts@.len() == sides@.len(),
            ts == views(texts@),
            i <= sides@.len(),
            sides_verdict(sides@, languages@, ts, *filter) == sides_verdict(
                sides@.skip(i as int),
                languages@.skip(i as int),
                ts.skip(i as int),
                *filter,
            ),
        decreases sides@.len() - i,
    {
        assert(sides@.skip(i as int).skip(1) =~= sides@.skip(i + 1));
        assert(languages@.skip(i as int).skip(1) =~= languages@.skip(i + 1));
        assert(ts.skip(i as int).skip(1) =~= ts.skip(i + 1));
        assert(ts.skip(i as int)[0] == texts@[i as int]@);
        match sides[i].has_code_changes(&languages[i], filter, texts[i].as_str()) {
            Err(e) => {
                return Err(e);
            },
            Ok(true) => {
                return Ok(true);
            },
            Ok(false) => {},
        }
        i = i + 1;
    }
    assert(sides@.skip(i as int).len() == 0);
    Ok(false)
}

/// A file whose language is unknown has a code change on every side that
/// exists.
pub proof fn unknown_language_is_code(
    side: FileChanges,
    filter: Option<Vec<LanguageType>>,
    text: Seq<char>,
)
    requires
        side.path is Some,
    ensures
        side_verdict(side, None, filter, text) == Ok::<bool, ChangeError>(true),
{
}

/// A side whose language the filter leaves out gives no change, and taking it
/// away from a list of sides leaves the verdict over the list as it was.
pub proof fn filtered_side_is_ignored(
    sides: Seq<FileChanges>,
    languages: Seq<Option<LanguageSyntax>>,
    texts: Seq<Seq<char>>,
    filter: Option<Vec<LanguageType>>,
    k: int,
)
    requires
        languages.len() == sides.len(),
        texts.len() == sides.len(),
        0 <= k < sides.len(),
        languages[k] matches Some(syn) && filtered_out(syn, filter),
    ensures
        side_verdict(sides[k], languages[k], filter, texts[k]) == Ok::<bool, ChangeError>(false),
        sides_verdict(sides, languages, texts, filter) == sides_verdict(
            sides.remove(k),
            languages.remove(k),
            texts.remove(k),
            filter,
        ),
    decreases k,
{
    if k == 0 {
        assert(sides.remove(0) =~= sides.skip(1));
        assert(languages.remove(0) =~= languages.skip(1));
        assert(texts.remove(0) =~= texts.skip(1));
    } else {
        filtered_side_is_ignored(sides.skip(1), languages.skip(1), texts.skip(1), filter, k - 1);
        assert(sides.remove(k).skip(1) =~= sides.skip(1).remove(k - 1));
        assert(languages.remove(k).skip(1) =~= languages.skip(1).remove(k - 1));
        assert(texts.remove(k).skip(1) =~= texts.skip(1).remove(k - 1));
        assert(sides.remove(k)[0] == sides[0]);
        assert(languages.remove(k)[0] == languages[0]);
        assert(texts.remove(k)[0] == texts[0]);
    }
}

} // verus!
