//! Total order on version identifiers.

use vstd::prelude::*;
use vstd::string::*;
use std::cmp::Ordering;
use crate::text::{is_digit, lower_of, lowercase, names_view, push_char};
use crate::version::{SemVer, SemVerModel, Version, VersionModel};

verus! {

/// Lexical comparison of texts, character by character: -1, 0 or 1.
pub open spec fn lex_cmp(a: Seq<char>, b: Seq<char>) -> int
    decreases a.len(),
{
    if a.len() == 0 {
        if b.len() == 0 { 0 } else { -1 }
    } else if b.len() == 0 {
        1
    } else if a[0] < b[0] {
        -1
    } else if a[0] > b[0] {
        1
    } else {
        lex_cmp(a.drop_first(), b.drop_first())
    }
}

/// Comparison of numbers: -1, 0 or 1.
pub open spec fn num_cmp(a: u64, b: u64) -> int {
    if a < b { -1 } else if a > b { 1 } else { 0 }
}

/// The dot-separated parts of a text read so far: the finished parts and
/// the part being read.
pub open spec fn split_acc(s: Seq<char>) -> (Seq<Seq<char>>, Seq<char>)
    decreases s.len(),
{
    if s.len() == 0 {
        (Seq::empty(), Seq::empty())
    } else {
        let (parts, cur) = split_acc(s.drop_last());
        if s.last() == '.' {
            (parts.push(cur), Seq::empty())
        } else {
            (parts, cur.push(s.last()))
        }
    }
}

/// The dot-separated identifiers of a prerelease text.
pub open spec fn identifiers(s: Seq<char>) -> Seq<Seq<char>> {
    split_acc(s).0.push(split_acc(s).1)
}

/// An identifier made of digits only.
pub open spec fn is_numeric(s: Seq<char>) -> bool {
    forall|i: int| 0 <= i < s.len() ==> is_digit(s[i])
}

/// Identifier precedence: numeric identifiers by value (digit count, then
/// digits), below all others; others lexically.
pub open spec fn ident_cmp(a: Seq<char>, b: Seq<char>) -> int {
    if is_numeric(a) && is_numeric(b) {
        if a.len() < b.len() {
            -1
        } else if a.len() > b.len() {
            1
        } else {
            lex_cmp(a, b)
        }
    } else if is_numeric(a) {
        -1
    } else if is_numeric(b) {
        1
    } else {
        lex_cmp(a, b)
    }
}

/// Precedence of identifier lists: part by part; where one list is a prefix
/// of the other, the shorter is below.
pub open spec fn idents_cmp(xs: Seq<Seq<char>>, ys: Seq<Seq<char>>) -> int
    decreases xs.len(),
{
    if xs.len() == 0 {
        if ys.len() == 0 { 0 } else { -1 }
    } else if ys.len() == 0 {
        1
    } else if ident_cmp(xs[0], ys[0]) != 0 {
        ident_cmp(xs[0], ys[0])
    } else {
        idents_cmp(xs.drop_first(), ys.drop_first())
    }
}

/// Prerelease precedence: a release (empty text) is above any prerelease;
/// prereleases compare by their identifiers, and texts with equal
/// identifiers by their characters.
pub open spec fn pre_cmp(a: Seq<char>, b: Seq<char>) -> int {
    if a.len() == 0 && b.len() == 0 {
        0
    } else if a.len() == 0 {
        1
    } else if b.len() == 0 {
        -1
    } else if idents_cmp(identifiers(a), identifiers(b)) != 0 {
        idents_cmp(identifiers(a), identifiers(b))
    } else {
        lex_cmp(a, b)
    }
}

/// Alias order: by the lowercased names, then by the names themselves.
pub open spec fn alias_cmp(a: Seq<char>, b: Seq<char>) -> int {
    if lex_cmp(lower_of(a), lower_of(b)) != 0 {
        lex_cmp(lower_of(a), lower_of(b))
    } else {
        lex_cmp(a, b)
    }
}

/// Semantic-version precedence: major, minor, patch, prerelease, and the
/// build text last so that only equal versions compare equal.
pub open spec fn semver_cmp(a: SemVerModel, b: SemVerModel) -> int {
    if num_cmp(a.0, b.0) != 0 {
        num_cmp(a.0, b.0)
    } else if num_cmp(a.1, b.1) != 0 {
        num_cmp(a.1, b.1)
    } else if num_cmp(a.2, b.2) != 0 {
        num_cmp(a.2, b.2)
    } else if pre_cmp(a.3, b.3) != 0 {
        pre_cmp(a.3, b.3)
    } else {
        lex_cmp(a.4, b.4)
    }
}

/// Order of version identifiers: exact versions by precedence, before all
/// aliases; aliases by their names.
pub open spec fn version_cmp(a: VersionModel, b: VersionModel) -> int {
    match (a, b) {
        (VersionModel::Exact(x), VersionModel::Exact(y)) => semver_cmp(x, y),
        (VersionModel::Exact(_), VersionModel::Alias(_)) => -1,
        (VersionModel::Alias(_), VersionModel::Exact(_)) => 1,
        (VersionModel::Alias(x), VersionModel::Alias(y)) => alias_cmp(x, y),
    }
}

/// The `Ordering` for a comparison result.
pub open spec fn ordering_of(c: int) -> Ordering {
    if c < 0 { Ordering::Less } else if c > 0 { Ordering::Greater } else { Ordering::Equal }
}

pub proof fn lemma_lex_antisym(a: Seq<char>, b: Seq<char>)
    ensures
        lex_cmp(a, b) == -lex_cmp(b, a),
        -1 <= lex_cmp(a, b) <= 1,
        lex_cmp(a, b) == 0 <==> a == b,
    decreases a.len(),
{
    if a.len() == 0 && b.len() == 0 {
        assert(a =~= b);
    }
    if a.len() > 0 && b.len() > 0 && a[0] == b[0] {
        lemma_lex_antisym(a.drop_first(), b.drop_first());
        if a.drop_first() == b.drop_first() {
            assert(a =~= seq![a[0]] + a.drop_first());
            assert(b =~= seq![b[0]] + b.drop_first());
        }
    }
}

pub proof fn lemma_lex_trans(a: Seq<char>, b: Seq<char>, c: Seq<char>)
    requires
        lex_cmp(a, b) < 0,
        lex_cmp(b, c) < 0,
    ensures
        lex_cmp(a, c) < 0,
    decreases a.len(),
{
    if a.len() > 0 && b.len() > 0 && c.len() > 0 && a[0] == b[0] && b[0] == c[0] {
        lemma_lex_trans(a.drop_first(), b.drop_first(), c.drop_first());
    }
}

pub proof fn lemma_ident_props(a: Seq<char>, b: Seq<char>)
    ensures
        ident_cmp(a, b) == -ident_cmp(b, a),
        -1 <= ident_cmp(a, b) <= 1,
        ident_cmp(a, b) == 0 <==> a == b,
{
    lemma_lex_antisym(a, b);
}

pub proof fn lemma_ident_trans(a: Seq<char>, b: Seq<char>, c: Seq<char>)
    requires
        ident_cmp(a, b) < 0,
        ident_cmp(b, c) < 0,
    ensures
        ident_cmp(a, c) < 0,
{
    lemma_lex_antisym(a, b);
    lemma_lex_antisym(b, c);
    lemma_lex_antisym(a, c);
    if lex_cmp(a, b) < 0 && lex_cmp(b, c) < 0 {
        lemma_lex_trans(a, b, c);
    }
}

pub proof fn lemma_idents_props(xs: Seq<Seq<char>>, ys: Seq<Seq<char>>)
    ensures
        idents_cmp(xs, ys) == -idents_cmp(ys, xs),
        -1 <= idents_cmp(xs, ys) <= 1,
        idents_cmp(xs, ys) == 0 <==> xs == ys,
    decreases xs.len(),
{
    if xs.len() == 0 && ys.len() == 0 {
        assert(xs =~= ys);
    }
    if xs.len() > 0 && ys.len() > 0 {
        lemma_ident_props(xs[0], ys[0]);
        lemma_idents_props(xs.drop_first(), ys.drop_first());
        if xs[0] == ys[0] && xs.drop_first() == ys.drop_first() {
            assert(xs =~= seq![xs[0]] + xs.drop_first());
            assert(ys =~= seq![ys[0]] + ys.drop_first());
        }
    }
}

pub proof fn lemma_idents_trans(xs: Seq<Seq<char>>, ys: Seq<Seq<char>>, zs: Seq<Seq<char>>)
    requires
        idents_cmp(xs, ys) < 0,
        idents_cmp(ys, zs) < 0,
    ensures
        idents_cmp(xs, zs) < 0,
    decreases xs.len(),
{
    if xs.len() > 0 && ys.len() > 0 && zs.len() > 0 {
        lemma_ident_props(xs[0], ys[0]);
        lemma_ident_props(ys[0], zs[0]);
        lemma_ident_props(xs[0], zs[0]);
        if ident_cmp(xs[0], ys[0]) < 0 && ident_cmp(ys[0], zs[0]) < 0 {
            lemma_ident_trans(xs[0], ys[0], zs[0]);
        }
        if xs[0] == ys[0] && ys[0] == zs[0] {
            lemma_idents_trans(xs.drop_first(), ys.drop_first(), zs.drop_first());
        }
    }
}

pub proof fn lemma_pre_props(a: Seq<char>, b: Seq<char>)
    ensures
        pre_cmp(a, b) == -pre_cmp(b, a),
        -1 <= pre_cmp(a, b) <= 1,
        pre_cmp(a, b) == 0 <==> a == b,
{
    lemma_lex_antisym(a, b);
    lemma_idents_props(identifiers(a), identifiers(b));
}

pub proof fn lemma_pre_trans(a: Seq<char>, b: Seq<char>, c: Seq<char>)
    requires
        pre_cmp(a, b) < 0,
        pre_cmp(b, c) < 0,
    ensures
        pre_cmp(a, c) < 0,
{
    if a.len() > 0 && b.len() > 0 && c.len() > 0 {
        let (x, y, z) = (identifiers(a), identifiers(b), identifiers(c));
        lemma_idents_props(x, y);
        lemma_idents_props(y, z);
        lemma_idents_props(x, z);
        lemma_lex_antisym(a, b);
        lemma_lex_antisym(b, c);
        if idents_cmp(x, y) < 0 && idents_cmp(y, z) < 0 {
            lemma_idents_trans(x, y, z);
        }
        if lex_cmp(a, b) < 0 && lex_cmp(b, c) < 0 {
            lemma_lex_trans(a, b, c);
        }
    }
}

pub proof fn lemma_alias_props(a: Seq<char>, b: Seq<char>)
    ensures
        alias_cmp(a, b) == -alias_cmp(b, a),
        -1 <= alias_cmp(a, b) <= 1,
        alias_cmp(a, b) == 0 <==> a == b,
{
    lemma_lex_antisym(a, b);
    lemma_lex_antisym(lower_of(a), lower_of(b));
}

pub proof fn lemma_alias_trans(a: Seq<char>, b: Seq<char>, c: Seq<char>)
    requires
        alias_cmp(a, b) < 0,
        alias_cmp(b, c) < 0,
    ensures
        alias_cmp(a, c) < 0,
{
    let (x, y, z) = (lower_of(a), lower_of(b), lower_of(c));
    lemma_lex_antisym(x, y);
    lemma_lex_antisym(y, z);
    lemma_lex_antisym(x, z);
    lemma_lex_antisym(a, b);
    lemma_lex_antisym(b, c);
    if lex_cmp(x, y) < 0 && lex_cmp(y, z) < 0 {
        lemma_lex_trans(x, y, z);
    }
    if lex_cmp(a, b) < 0 && lex_cmp(b, c) < 0 {
        lemma_lex_trans(a, b, c);
    }
}

/// The order on version identifiers is total: every pair compares as exactly
/// one of less, equal or greater; swapping the pair flips the result; and
/// only equal identifiers compare equal.
pub proof fn lemma_version_cmp_total(a: VersionModel, b: VersionModel)
    ensures
        -1 <= version_cmp(a, b) <= 1,
        version_cmp(a, b) == -version_cmp(b, a),
        version_cmp(a, b) == 0 <==> a == b,
{
    match (a, b) {
        (VersionModel::Exact(x), VersionModel::Exact(y)) => {
            lemma_pre_props(x.3, y.3);
            lemma_lex_antisym(x.4, y.4);
        },
        (VersionModel::Alias(x), VersionModel::Alias(y)) => {
            lemma_alias_props(x, y);
        },
        _ => {},
    }
}

/// The order on version identifiers is transitive.
pub proof fn lemma_version_cmp_transitive(a: VersionModel, b: VersionModel, c: VersionModel)
    requires
        version_cmp(a, b) < 0,
        version_cmp(b, c) < 0,
    ensures
        version_cmp(a, c) < 0,
{
    match (a, b, c) {
        (VersionModel::Exact(x), VersionModel::Exact(y), VersionModel::Exact(z)) => {
            lemma_pre_props(x.3, y.3);
            lemma_pre_props(y.3, z.3);
            lemma_pre_props(x.3, z.3);
            if pre_cmp(x.3, y.3) < 0 && pre_cmp(y.3, z.3) < 0 {
                lemma_pre_trans(x.3, y.3, z.3);
            }
            if lex_cmp(x.4, y.4) < 0 && lex_cmp(y.4, z.4) < 0 {
                lemma_lex_trans(x.4, y.4, z.4);
            }
        },
        (VersionModel::Alias(x), VersionModel::Alias(y), VersionModel::Alias(z)) => {
            lemma_alias_trans(x, y, z);
        },
        _ => {},
    }
}

/// A prerelease comes before the release with the same numbers.
pub proof fn lemma_prerelease_before_release(x: SemVerModel, y: SemVerModel)
    requires
        x.0 == y.0,
        x.1 == y.1,
        x.2 == y.2,
        x.3.len() > 0,
        y.3.len() == 0,
    ensures
        version_cmp(VersionModel::Exact(x), VersionModel::Exact(y)) < 0,
{
}

/// Lexical comparison of two texts.
pub fn compare_text(a: &str, b: &str) -> (r: Ordering)
    ensures
        r == ordering_of(lex_cmp(a@, b@)),
{
    let n = a.unicode_len();
    let m = b.unicode_len();
    let mut i: usize = 0;
    assert(a@.subrange(0, n as int) =~= a@);
    assert(b@.subrange(0, m as int) =~= b@);
    while i < n && i < m
        invariant
            n == a@.len(),
            m == b@.len(),
            i <= n,
            i <= m,
            lex_cmp(a@, b@) == lex_cmp(a@.subrange(i as int, n as int), b@.subrange(i as int, m as int)),
        decreases n - i,
    {
        let x = a.get_char(i);
        let y = b.get_char(i);
        proof {
            assert(a@.subrange(i as int, n as int).drop_first() =~= a@.subrange(i + 1, n as int));
            assert(b@.subrange(i as int, m as int).drop_first() =~= b@.subrange(i + 1, m as int));
        }
        if x < y {
            return Ordering::Less;
        } else if x > y {
            return Ordering::Greater;
        }
        i = i + 1;
    }
    if i < n {
        Ordering::Greater
    } else if i < m {
        Ordering::Less
    } else {
        Ordering::Equal
    }
}

/// The dot-separated identifiers of a prerelease text.
pub fn identifiers_of(s: &str) -> (r: Vec<String>)
    ensures
        names_view(r@) == identifiers(s@),
{
    let n = s.unicode_len();
    let mut parts: Vec<String> = Vec::new();
    let mut cur = String::new();
    let mut i: usize = 0;
    assert(s@.subrange(0, 0) =~= Seq::<char>::empty());
    while i < n
        invariant
            n == s@.len(),
            i <= n,
            (names_view(parts@), cur@) == split_acc(s@.subrange(0, i as int)),
        decreases n - i,
    {
        let c = s.get_char(i);
        proof {
            assert(s@.subrange(0, i + 1).drop_last() =~= s@.subrange(0, i as int));
            assert(s@.subrange(0, i + 1).last() == c);
        }
        if c == '.' {
            let done = cur;
            parts.push(done);
            cur = String::new();
            assert(names_view(parts@) =~= split_acc(s@.subrange(0, i + 1)).0);
            assert(cur@ =~= split_acc(s@.subrange(0, i + 1)).1);
        } else {
            push_char(&mut cur, c);
        }
        i = i + 1;
    }
    assert(s@.subrange(0, n as int) =~= s@);
    parts.push(cur);
    assert(names_view(parts@) =~= identifiers(s@));
    parts
}

/// Whether an identifier is made of digits only.
fn numeric(s: &str) -> (r: bool)
    ensures
        r == is_numeric(s@),
{
    let n = s.unicode_len();
    let mut i: usize = 0;
    while i < n
        invariant
            n == s@.len(),
            i <= n,
            forall|k: int| 0 <= k < i ==> is_digit(s@[k]),
        decreases n - i,
    {
        let c = s.get_char(i);
        if !('0' <= c && c <= '9') {
            return false;
        }
        i = i + 1;
    }
    true
}

/// Identifier precedence.
fn compare_ident(a: &str, b: &str) -> (r: Ordering)
    ensures
        r == ordering_of(ident_cmp(a@, b@)),
{
    let na = numeric(a);
    let nb = numeric(b);
    if na && nb {
        let la = a.unicode_len();
        let lb = b.unicode_len();
        if la < lb {
            Ordering::Less
        } else if la > lb {
            Ordering::Greater
        } else {
            compare_text(a, b)
        }
    } else if na {
        Ordering::Less
    } else if nb {
        Ordering::Greater
    } else {
        compare_text(a, b)
    }
}

/// Precedence of identifier lists.
fn compare_idents(xs: &Vec<String>, ys: &Vec<String>) -> (r: Ordering)
    ensures
        r == ordering_of(idents_cmp(names_view(xs@), names_view(ys@))),
{
    let ghost x = names_view(xs@);
    let ghost y = names_view(ys@);
    let mut i: usize = 0;
    assert(x.subrange(0, x.len() as int) =~= x);
    assert(y.subrange(0, y.len() as int) =~= y);
    while i < xs.len() && i < ys.len()
        invariant
            x == names_view(xs@),
            y == names_view(ys@),
            x.len() == xs@.len(),
            y.len() == ys@.len(),
            i <= xs.len(),
            i <= ys.len(),
            idents_cmp(x, y) == idents_cmp(x.subrange(i as int, x.len() as int), y.subrange(i as int, y.len() as int)),
        decreases xs.len() - i,
    {
        proof {
            assert(x.subrange(i as int, x.len() as int).drop_first() =~= x.subrange(i + 1, x.len() as int));
            assert(y.subrange(i as int, y.len() as int).drop_first() =~= y.subrange(i + 1, y.len() as int));
            assert(x.subrange(i as int, x.len() as int)[0] == xs@[i as int]@);
            assert(y.subrange(i as int, y.len() as int)[0] == ys@[i as int]@);
        }
        match compare_ident(xs[i].as_str(), ys[i].as_str()) {
            Ordering::Equal => {},
            c => {
                return c;
            },
        }
        i = i + 1;
    }
    if i < xs.len() {
        Ordering::Greater
    } else if i < ys.len() {
        Ordering::Less
    } else {
        Ordering::Equal
    }
}

fn compare_num(a: u64, b: u64) -> (r: Ordering)
    ensures
        r == ordering_of(num_cmp(a, b)),
{
    if a < b {
        Ordering::Less
    } else if a > b {
        Ordering::Greater
    } else {
        Ordering::Equal
    }
}

impl SemVer {
    /// Semantic-version precedence.
    pub fn compare(&self, other: &SemVer) -> (r: Ordering)
        ensures
            r == ordering_of(semver_cmp(self@, other@)),
    {
        match compare_num(self.major, other.major) {
            Ordering::Equal => {},
            c => {
                return c;
            },
        }
        match compare_num(self.minor, other.minor) {
            Ordering::Equal => {},
            c => {
                return c;
            },
        }
        match compare_num(self.patch, other.patch) {
            Ordering::Equal => {},
            c => {
                return c;
            },
        }
        let a_pre = self.pre.as_str().unicode_len() == 0;
        let b_pre = other.pre.as_str().unicode_len() == 0;
        if a_pre && !b_pre {
            return Ordering::Greater;
        }
        if !a_pre && b_pre {
            return Ordering::Less;
        }
        if !a_pre {
            let xs = identifiers_of(self.pre.as_str());
            let ys = identifiers_of(other.pre.as_str());
            match compare_idents(&xs, &ys) {
                Ordering::Equal => {},
                c => {
                    return c;
                },
            }
            match compare_text(self.pre.as_str(), other.pre.as_str()) {
                Ordering::Equal => {},
                c => {
                    return c;
                },
            }
        }
        compare_text(self.build.as_str(), other.build.as_str())
    }
}

impl Version {
    /// The order of version identifiers: exact versions by precedence, before
    /// all aliases; aliases by lowercased name, then by name.
    pub fn compare(&self, other: &Version) -> (r: Ordering)
        ensures
            r == ordering_of(version_cmp(self@, other@)),
    {
        match (self, other) {
            (Version::Semver(x), Version::Semver(y)) => x.compare(y),
            (Version::Semver(_), Version::Alias(_)) => Ordering::Less,
            (Version::Alias(_), Version::Semver(_)) => Ordering::Greater,
            (Version::Alias(x), Version::Alias(y)) => {
                let fx = lowercase(x.as_str());
                let fy = lowercase(y.as_str());
                match compare_text(fx.as_str(), fy.as_str()) {
                    Ordering::Equal => compare_text(x.as_str(), y.as_str()),
                    c => c,
                }
            },
        }
    }
}

} // verus!
