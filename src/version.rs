//! Version identifiers: exact semantic versions and named aliases.

use vstd::prelude::*;
use vstd::string::*;
use crate::text::{
    ascii_folded, decimal, fold_char, is_ascii_text, is_digit, lower_of, lowercase, push_char,
    push_decimal, starts_with_digit, str_eq, strip_v,
};

verus! {

/// An exact semantic version: major, minor and patch numbers, with the
/// prerelease and build texts (each empty when absent).
#[derive(Debug, PartialEq, Eq)]
pub struct SemVer {
    pub major: u64,
    pub minor: u64,
    pub patch: u64,
    pub pre: String,
    pub build: String,
}

/// Abstract value of a semantic version: the three numbers, the prerelease
/// text and the build text.
pub type SemVerModel = (u64, u64, u64, Seq<char>, Seq<char>);

impl View for SemVer {
    type V = SemVerModel;

    open spec fn view(&self) -> SemVerModel {
        (self.major, self.minor, self.patch, self.pre@, self.build@)
    }
}

/// A version identifier as the user writes it.
#[derive(Debug, PartialEq, Eq)]
pub enum Version {
    Semver(SemVer),
    Alias(String),
}

/// Abstract value of a version identifier.
pub ghost enum VersionModel {
    Exact(SemVerModel),
    Alias(Seq<char>),
}

impl View for Version {
    type V = VersionModel;

    open spec fn view(&self) -> VersionModel {
        match self {
            Version::Semver(v) => VersionModel::Exact(v@),
            Version::Alias(a) => VersionModel::Alias(a@),
        }
    }
}

/// The fields that `semver::Version::parse` finds in a text, if it accepts it.
pub uninterp spec fn semver_of(s: Seq<char>) -> Option<(u64, u64, u64, Seq<char>, Seq<char>)>;

/// Relies on `semver::Version::parse`: it accepts a text or not depending on
/// the text alone; an accepted text yields its numbers and the prerelease and
/// build texts (`Prerelease::as_str`, `BuildMetadata::as_str`), and is
/// exactly the canonical text of what it yields (no prefix, no blanks, no
/// leading zeros in the numbers, non-empty prerelease and build parts kept
/// as written, which is what `Display for Version` writes).
#[verifier::external_body]
fn semver_parse(s: &str) -> (r: Option<SemVer>)
    ensures
        match r {
            Some(v) => semver_of(s@) == Some(v@) && s@ == semver_text(v@),
            None => semver_of(s@) is None,
        },
{
    match semver::Version::parse(s) {
        Ok(v) => Some(SemVer {
            major: v.major,
            minor: v.minor,
            patch: v.patch,
            pre: v.pre.as_str().to_string(),
            build: v.build.as_str().to_string(),
        }),
        Err(_) => None,
    }
}

/// The text is read as a semantic version.
#[derive(Debug)]
pub struct ParseError {
    pub text: String,
}

/// What `Version::parse` makes of a text: `None` where the text asks for a
/// semantic version that it does not spell.
pub open spec fn parse_spec(s: Seq<char>) -> Option<VersionModel> {
    if starts_with_digit(strip_v(s)) {
        match semver_of(lower_of(strip_v(s))) {
            Some(p) => Some(VersionModel::Exact(p)),
            None => None,
        }
    } else {
        Some(VersionModel::Alias(lower_of(s)))
    }
}

/// The canonical text of a semantic version, without a prefix.
pub open spec fn semver_text(p: SemVerModel) -> Seq<char> {
    decimal(p.0 as nat) + seq!['.'] + decimal(p.1 as nat) + seq!['.'] + decimal(p.2 as nat)
        + (if p.3.len() > 0 { seq!['-'] + p.3 } else { Seq::empty() })
        + (if p.4.len() > 0 { seq!['+'] + p.4 } else { Seq::empty() })
}

/// The canonical text of a version identifier: `v` and the semantic version,
/// or the alias name.
pub open spec fn render(v: VersionModel) -> Seq<char> {
    match v {
        VersionModel::Exact(p) => seq!['v'] + semver_text(p),
        VersionModel::Alias(a) => a,
    }
}

/// Whether the text begins with a decimal digit.
pub fn start_with_number(s: &str) -> (r: bool)
    ensures
        r == starts_with_digit(s@),
{
    if s.unicode_len() == 0 {
        false
    } else {
        let c = s.get_char(0);
        '0' <= c && c <= '9'
    }
}

/// The text with one leading `v` or `V` removed, if there is one.
fn trim_v(s: &str) -> (r: &str)
    ensures
        r@ == strip_v(s@),
{
    let n = s.unicode_len();
    if n > 0 {
        let c = s.get_char(0);
        if c == 'v' || c == 'V' {
            return s.substring_char(1, n);
        }
    }
    s
}

impl SemVer {
    /// Appends the canonical text of the version, without a prefix.
    pub fn write_plain(&self, out: &mut String)
        ensures
            final(out)@ == old(out)@ + semver_text(self@),
    {
        let ghost start = out@;
        push_decimal(out, self.major);
        push_char(out, '.');
        push_decimal(out, self.minor);
        push_char(out, '.');
        push_decimal(out, self.patch);
        if self.pre.as_str().unicode_len() > 0 {
            push_char(out, '-');
            out.append(self.pre.as_str());
        }
        if self.build.as_str().unicode_len() > 0 {
            push_char(out, '+');
            out.append(self.build.as_str());
        }
        assert(out@ =~= start + semver_text(self@));
    }

    /// The canonical text of the version, without a prefix.
    pub fn plain_str(&self) -> (r: String)
        ensures
            r@ == semver_text(self@),
    {
        let mut out = String::new();
        self.write_plain(&mut out);
        assert(out@ =~= semver_text(self@));
        out
    }
}

impl Clone for SemVer {
    fn clone(&self) -> (r: SemVer)
        ensures
            r@ == self@,
    {
        SemVer {
            major: self.major,
            minor: self.minor,
            patch: self.patch,
            pre: self.pre.clone(),
            build: self.build.clone(),
        }
    }
}

impl Clone for Version {
    fn clone(&self) -> (r: Version)
        ensures
            r@ == self@,
    {
        match self {
            Version::Semver(v) => Version::Semver(v.clone()),
            Version::Alias(a) => Version::Alias(a.clone()),
        }
    }
}

impl Version {
    /// Reads a version identifier. A text that begins with a digit, after an
    /// optional `v` or `V`, must be a semantic version; any other text is an
    /// alias, lowercased.
    ///
    /// The canonical text of an exact result is `v` and the lowercased text
    /// after the optional prefix; on ASCII text (every valid semantic version
    /// is ASCII) rendering a result and reading it again gives it back.
    pub fn parse(version_str: &str) -> (r: Result<Version, ParseError>)
        ensures
            match r {
                Ok(v) => parse_spec(version_str@) == Some(v@),
                Err(_) => parse_spec(version_str@) is None,
            },
            r matches Ok(Version::Semver(v)) ==> render(VersionModel::Exact(v@)) == seq!['v']
                + lower_of(strip_v(version_str@)),
            is_ascii_text(version_str@) ==> (r matches Ok(v) ==> parse_spec(render(v@)) == Some(
                v@,
            )),
    {
        let plain = trim_v(version_str);
        if start_with_number(plain) {
            let lowered = lowercase(plain);
            match semver_parse(lowered.as_str()) {
                Some(v) => {
                    proof {
                        let low = lowered@;
                        let r = render(VersionModel::Exact(v@));
                        assert(r =~= seq!['v'] + low);
                        assert(r.drop_first() =~= low);
                        if is_ascii_text(version_str@) {
                            assert(is_ascii_text(plain@)) by {
                                assert forall|i: int| 0 <= i < plain@.len() implies (plain@[i] as u32)
                                    < 128 by {
                                    if version_str@.len() > 0 && (version_str@[0] == 'v'
                                        || version_str@[0] == 'V') {
                                        assert(plain@[i] == version_str@[i + 1]);
                                    }
                                }
                            }
                            assert(low[0] == fold_char(plain@[0]));
                        }
                    }
                    Ok(Version::Semver(v))
                },
                None => Err(ParseError { text: String::from_str(version_str) }),
            }
        } else {
            let name = lowercase(version_str);
            proof {
                if is_ascii_text(version_str@) {
                    lemma_fold_keeps_class(version_str@, name@);
                }
            }
            Ok(Version::Alias(name))
        }
    }

    /// The canonical text: `v` and the semantic version, or the alias name.
    pub fn v_str(&self) -> (r: String)
        ensures
            r@ == render(self@),
    {
        match self {
            Version::Semver(v) => {
                let mut out = String::new();
                push_char(&mut out, 'v');
                v.write_plain(&mut out);
                assert(out@ =~= render(self@));
                out
            },
            Version::Alias(a) => a.clone(),
        }
    }

    /// The alias name, for an alias.
    pub fn alias_name(&self) -> (r: Option<String>)
        ensures
            match self@ {
                VersionModel::Alias(a) => r matches Some(n) && n@ == a,
                VersionModel::Exact(_) => r is None,
            },
    {
        match self {
            Version::Alias(a) => Some(a.clone()),
            Version::Semver(_) => None,
        }
    }

    /// Whether this is the exact version `other`.
    pub fn eq_semver(&self, other: &SemVer) -> (r: bool)
        ensures
            r == (self@ == VersionModel::Exact(other@)),
    {
        match self {
            Version::Semver(v) => {
                v.major == other.major && v.minor == other.minor && v.patch == other.patch
                    && str_eq(v.pre.as_str(), other.pre.as_str())
                    && str_eq(v.build.as_str(), other.build.as_str())
            },
            Version::Alias(_) => false,
        }
    }
}

/// Lowercasing ASCII text keeps whether it reads as a number after an
/// optional `v` or `V`.
proof fn lemma_fold_keeps_class(s: Seq<char>, r: Seq<char>)
    requires
        ascii_folded(s, r),
    ensures
        starts_with_digit(strip_v(r)) == starts_with_digit(strip_v(s)),
{
    if s.len() > 0 {
        assert(r[0] == fold_char(s[0]));
        if s.len() > 1 {
            assert(r[1] == fold_char(s[1]));
        }
    }
}

/// A text beginning with `v` or `V` and a digit reads as the same version as
/// the text without that letter.
pub proof fn lemma_v_prefix_ignored(t: Seq<char>, c: char)
    requires
        starts_with_digit(t),
        c == 'v' || c == 'V',
    ensures
        parse_spec(seq![c] + t) == parse_spec(t),
{
    assert((seq![c] + t).drop_first() =~= t);
    assert(!(t[0] == 'v' || t[0] == 'V'));
}

/// A text that does not begin with a digit, after an optional `v` or `V`,
/// reads as the alias named by its lowercased form.
pub proof fn lemma_non_numeric_is_alias(s: Seq<char>)
    requires
        !starts_with_digit(strip_v(s)),
    ensures
        parse_spec(s) == Some(VersionModel::Alias(lower_of(s))),
{
}

/// The canonical text of an exact version reads again through the
/// semantic-version parser, on its lowercased plain text.
pub proof fn lemma_render_reads_as_exact(p: SemVerModel)
    ensures
        parse_spec(render(VersionModel::Exact(p))) == match semver_of(
            lower_of(semver_text(p)),
        ) {
            Some(q) => Some(VersionModel::Exact(q)),
            None => None::<VersionModel>,
        },
{
    let r = render(VersionModel::Exact(p));
    assert(r.drop_first() =~= semver_text(p));
    crate::text::lemma_decimal_starts_with_digit(p.0 as nat);
    assert(semver_text(p)[0] == decimal(p.0 as nat)[0]);
}

} // verus!
