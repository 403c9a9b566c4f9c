//! Which version an operation acts on: the explicit argument, else the
//! nearest version file, else none.

use vstd::prelude::*;
use vstd::string::*;
use crate::version::{parse_spec, ParseError, Version, VersionModel};

verus! {

/// Why no version could be resolved.
#[derive(Debug)]
pub enum ResolveError {
    /// The chosen text asks for a semantic version that it does not spell.
    Parse(ParseError),
    /// Neither an argument nor a version file names a version.
    CantInferVersion,
}

/// ASCII blank characters that surround the content of a version file.
pub open spec fn is_blank(c: char) -> bool {
    c == ' ' || c == '\t' || c == '\n' || c == '\r'
}

/// Index of the first non-blank character at or after `i`.
pub open spec fn skip_blanks(s: Seq<char>, i: int) -> int
    decreases s.len() - i,
{
    if i < s.len() && is_blank(s[i]) { skip_blanks(s, i + 1) } else { i }
}

/// End of the text once trailing blanks are cut, not below `lo`.
pub open spec fn cut_blanks(s: Seq<char>, lo: int, j: int) -> int
    decreases j - lo,
{
    if j > lo && is_blank(s[j - 1]) { cut_blanks(s, lo, j - 1) } else { j }
}

/// The text without leading and trailing blanks.
pub open spec fn trimmed(s: Seq<char>) -> Seq<char> {
    let lo = if skip_blanks(s, 0) <= s.len() { skip_blanks(s, 0) } else { s.len() as int };
    s.subrange(lo, cut_blanks(s, lo, s.len() as int))
}

/// The first version file found, walking from the working directory up:
/// `files[0]` is the working directory's, each next entry its parent's.
pub open spec fn nearest_file(files: Seq<Option<Seq<char>>>) -> Option<Seq<char>>
    decreases files.len(),
{
    if files.len() == 0 {
        None
    } else if files[0] is Some {
        files[0]
    } else {
        nearest_file(files.drop_first())
    }
}

/// The text that names the version: a non-empty explicit argument, else the
/// trimmed content of the nearest version file.
pub open spec fn chosen_text(explicit: Option<Seq<char>>, files: Seq<Option<Seq<char>>>) -> Option<
    Seq<char>,
> {
    if explicit matches Some(e) && e.len() > 0 {
        explicit
    } else {
        match nearest_file(files) {
            Some(f) => Some(trimmed(f)),
            None => None,
        }
    }
}

/// The resolved version; `None` inside where the chosen text does not parse,
/// `None` outside where there is no text to choose.
pub open spec fn resolve_spec(explicit: Option<Seq<char>>, files: Seq<Option<Seq<char>>>) -> Option<
    Option<VersionModel>,
> {
    match chosen_text(explicit, files) {
        Some(t) => Some(parse_spec(t)),
        None => None,
    }
}

/// The views of the version-file contents.
pub open spec fn files_view(files: Seq<Option<String>>) -> Seq<Option<Seq<char>>> {
    files.map_values(|f: Option<String>| match f {
        Some(s) => Some(s@),
        None => None,
    })
}

proof fn lemma_trim_bounds(s: Seq<char>, i: int)
    requires
        0 <= i <= s.len(),
    ensures
        i <= skip_blanks(s, i) <= s.len(),
    decreases s.len() - i,
{
    if i < s.len() && is_blank(s[i]) {
        lemma_trim_bounds(s, i + 1);
    }
}

proof fn lemma_cut_bounds(s: Seq<char>, lo: int, j: int)
    requires
        0 <= lo <= j <= s.len(),
    ensures
        lo <= cut_blanks(s, lo, j) <= j,
    decreases j - lo,
{
    if j > lo && is_blank(s[j - 1]) {
        lemma_cut_bounds(s, lo, j - 1);
    }
}

fn blank_at(s: &str, i: usize) -> (r: bool)
    requires
        i < s@.len(),
    ensures
        r == is_blank(s@[i as int]),
{
    let c = s.get_char(i);
    c == ' ' || c == '\t' || c == '\n' || c == '\r'
}

/// The content of a version file without surrounding blanks.
pub fn trim_blanks(s: &str) -> (r: &str)
    ensures
        r@ == trimmed(s@),
{
    let n = s.unicode_len();
    let mut i: usize = 0;
    proof {
        lemma_trim_bounds(s@, 0);
    }
    while i < n && blank_at(s, i)
        invariant
            n == s@.len(),
            i <= n,
            skip_blanks(s@, i as int) == skip_blanks(s@, 0),
        decreases n - i,
    {
        i = i + 1;
    }
    proof {
        lemma_cut_bounds(s@, i as int, n as int);
    }
    let mut j: usize = n;
    while j > i && blank_at(s, j - 1)
        invariant
            n == s@.len(),
            i <= j <= n,
            i == skip_blanks(s@, 0),
            cut_blanks(s@, i as int, j as int) == cut_blanks(s@, i as int, n as int),
        decreases j,
    {
        j = j - 1;
    }
    s.substring_char(i, j)
}

/// The version to act on: a non-empty explicit argument wins; else the
/// nearest version file, walking from the working directory (`files[0]`) up
/// through each ancestor, and the search stops at the first file found; else
/// no version can be inferred.
pub fn resolve(explicit: Option<&str>, version_files: &Vec<Option<String>>) -> (r: Result<
    Version,
    ResolveError,
>)
    ensures
        match resolve_spec(
            match explicit {
                Some(e) => Some(e@),
                None => None,
            },
            files_view(version_files@),
        ) {
            None => r matches Err(ResolveError::CantInferVersion),
            Some(None) => r matches Err(ResolveError::Parse(_)),
            Some(Some(v)) => r matches Ok(x) && x@ == v,
        },
{
    if let Some(e) = explicit {
        if e.unicode_len() > 0 {
            return match Version::parse(e) {
                Ok(v) => Ok(v),
                Err(p) => Err(ResolveError::Parse(p)),
            };
        }
    }
    let ghost files = files_view(version_files@);
    let mut i: usize = 0;
    assert(files.subrange(0, files.len() as int) =~= files);
    while i < version_files.len()
        invariant
            files == files_view(version_files@),
            files.len() == version_files@.len(),
            explicit matches Some(e) ==> e@.len() == 0,
            i <= version_files.len(),
            nearest_file(files) == nearest_file(files.subrange(i as int, files.len() as int)),
        decreases version_files.len() - i,
    {
        proof {
            assert(files.subrange(i as int, files.len() as int).drop_first() =~= files.subrange(
                i + 1,
                files.len() as int,
            ));
        }
        if let Some(content) = &version_files[i] {
            assert(files[i as int] == Some(content@));
            assert(files.subrange(i as int, files.len() as int)[0] == files[i as int]);
            let text = trim_blanks(content.as_str());
            assert(nearest_file(files) == Some(content@));
            return match Version::parse(text) {
                Ok(v) => Ok(v),
                Err(p) => Err(ResolveError::Parse(p)),
            };
        }
        i = i + 1;
    }
    Err(ResolveError::CantInferVersion)
}

/// An explicit argument wins over version files; without it the nearest
/// version file decides; with neither, nothing is resolved.
pub proof fn lemma_resolve_priority(
    explicit: Seq<char>,
    files: Seq<Option<Seq<char>>>,
    none: Seq<Option<Seq<char>>>,
)
    requires
        explicit.len() > 0,
        files.len() > 0,
        files[0] is Some,
        forall|k: int| 0 <= k < none.len() ==> none[k] is None,
    ensures
        resolve_spec(Some(explicit), files) == Some(parse_spec(explicit)),
        resolve_spec(None, files) == Some(parse_spec(trimmed(files[0].unwrap()))),
        resolve_spec(None, none) is None,
{
    lemma_nothing_found(none);
}

proof fn lemma_nothing_found(files: Seq<Option<Seq<char>>>)
    requires
        forall|k: int| 0 <= k < files.len() ==> files[k] is None,
    ensures
        nearest_file(files) is None,
    decreases files.len(),
{
    if files.len() > 0 {
        lemma_nothing_found(files.drop_first());
    }
}

/// The search stops at the nearest directory holding a version file: a file
/// in the working directory wins over any file further up.
pub proof fn lemma_nearest_file_wins(files: Seq<Option<Seq<char>>>, k: int)
    requires
        files.len() > 0,
        files[0] is Some,
        0 < k < files.len(),
        files[k] is Some,
    ensures
        nearest_file(files) == files[0],
{
}

} // verus!
