//! Where installations, aliases, staging areas and the active links live,
//! relative to a configured base directory.

use vstd::prelude::*;
use vstd::string::*;
use crate::text::push_char;
use crate::version::{render, Version, VersionModel};

verus! {

/// `a/b`.
pub open spec fn join(a: Seq<char>, b: Seq<char>) -> Seq<char> {
    a + seq!['/'] + b
}

/// The configuration that every operation works under: the base directory.
pub struct Layout {
    pub base: String,
}

pub open spec fn versions_dir_of(base: Seq<char>) -> Seq<char> {
    join(base, "versions"@)
}

pub open spec fn aliases_dir_of(base: Seq<char>) -> Seq<char> {
    join(base, "aliases"@)
}

pub open spec fn downloads_dir_of(base: Seq<char>) -> Seq<char> {
    join(versions_dir_of(base), ".downloads"@)
}

pub open spec fn default_link_of(base: Seq<char>) -> Seq<char> {
    join(base, "default"@)
}

pub open spec fn current_link_of(base: Seq<char>) -> Seq<char> {
    join(base, "current"@)
}

/// Where a version lives: an exact version under the installations
/// directory, an alias under the aliases directory.
pub open spec fn version_path_of(base: Seq<char>, v: VersionModel) -> Seq<char> {
    match v {
        VersionModel::Exact(_) => join(versions_dir_of(base), render(v)),
        VersionModel::Alias(a) => join(aliases_dir_of(base), a),
    }
}

/// `dir/name`.
pub fn join_path(dir: &str, name: &str) -> (r: String)
    ensures
        r@ == join(dir@, name@),
{
    let mut out = String::from_str(dir);
    push_char(&mut out, '/');
    out.append(name);
    out
}

impl Layout {
    /// The installations directory.
    pub fn versions_dir(&self) -> (r: String)
        ensures
            r@ == versions_dir_of(self.base@),
    {
        join_path(self.base.as_str(), "versions")
    }

    /// The aliases directory.
    pub fn aliases_dir(&self) -> (r: String)
        ensures
            r@ == aliases_dir_of(self.base@),
    {
        join_path(self.base.as_str(), "aliases")
    }

    /// The hidden staging directory for downloads.
    pub fn downloads_dir(&self) -> (r: String)
        ensures
            r@ == downloads_dir_of(self.base@),
    {
        let v = self.versions_dir();
        join_path(v.as_str(), ".downloads")
    }

    /// The global-default link.
    pub fn default_version_dir(&self) -> (r: String)
        ensures
            r@ == default_link_of(self.base@),
    {
        join_path(self.base.as_str(), "default")
    }

    /// The link that the shell puts on its search path.
    pub fn current_link(&self) -> (r: String)
        ensures
            r@ == current_link_of(self.base@),
    {
        join_path(self.base.as_str(), "current")
    }
}

impl Version {
    /// Where the version lives: an exact version under the installations
    /// directory, named by its canonical text; an alias under the aliases
    /// directory, named by itself.
    pub fn installation_path(&self, layout: &Layout) -> (r: Option<String>)
        ensures
            r matches Some(p) && p@ == version_path_of(layout.base@, self@),
    {
        match self {
            Version::Alias(a) => {
                let d = layout.aliases_dir();
                Some(join_path(d.as_str(), a.as_str()))
            },
            Version::Semver(_) => {
                let d = layout.versions_dir();
                let name = self.v_str();
                Some(join_path(d.as_str(), name.as_str()))
            },
        }
    }
}

/// Two names under one directory give one path only when they are equal.
pub proof fn lemma_join_injective(dir: Seq<char>, x: Seq<char>, y: Seq<char>)
    requires
        join(dir, x) == join(dir, y),
    ensures
        x == y,
{
    let n = dir.len() + 1int;
    assert(join(dir, x).subrange(n, join(dir, x).len() as int) =~= x);
    assert(join(dir, y).subrange(n, join(dir, y).len() as int) =~= y);
}

/// Distinct versions of one kind live at distinct paths.
pub proof fn lemma_version_path_injective(base: Seq<char>, a: VersionModel, b: VersionModel)
    requires
        version_path_of(base, a) == version_path_of(base, b),
        (a is Exact) == (b is Exact),
    ensures
        render(a) == render(b),
{
    match a {
        VersionModel::Exact(_) => lemma_join_injective(versions_dir_of(base), render(a), render(b)),
        VersionModel::Alias(_) => lemma_join_injective(aliases_dir_of(base), render(a), render(b)),
    }
}

} // verus!
