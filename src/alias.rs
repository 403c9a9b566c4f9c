//! Aliases: names that point at installed versions through links in the
//! aliases directory.

use vstd::prelude::*;
use vstd::string::*;
use crate::layout::{aliases_dir_of, join, join_path, versions_dir_of, Layout};
use crate::switch::Relink;
use crate::text::{contains_name, names_view, str_eq};
use crate::version::{render, Version};

verus! {

/// An alias as found on disk: its name and the version text it points at.
#[derive(Debug, PartialEq, Eq)]
pub struct StoredAlias {
    pub name: String,
    pub target: String,
}

impl View for StoredAlias {
    type V = (Seq<char>, Seq<char>);

    open spec fn view(&self) -> (Seq<char>, Seq<char>) {
        (self.name@, self.target@)
    }
}

/// The views of a list of aliases.
pub open spec fn aliases_view(v: Seq<StoredAlias>) -> Seq<(Seq<char>, Seq<char>)> {
    v.map_values(|a: StoredAlias| a@)
}

/// Why an alias operation was refused.
#[derive(Debug)]
pub enum AliasError {
    /// No alias of that name exists.
    AliasNotFound,
    /// The version the alias should point at is not installed.
    AliasTargetNotInstalled,
}

/// Whether a directory entry is hidden.
pub open spec fn is_hidden(name: Seq<char>) -> bool {
    name.len() > 0 && name[0] == '.'
}

impl Clone for StoredAlias {
    fn clone(&self) -> (r: StoredAlias)
        ensures
            r@ == self@,
    {
        StoredAlias { name: self.name.clone(), target: self.target.clone() }
    }
}

impl StoredAlias {
    /// The version text the alias points at.
    pub fn s_ver(&self) -> (r: String)
        ensures
            r@ == self.target@,
    {
        self.target.clone()
    }
}

/// The entries of a directory listing that are not hidden, in listing order.
pub fn visible_names(names: &Vec<String>) -> (r: Vec<String>)
    ensures
        names_view(r@) == names_view(names@).filter(|n: Seq<char>| !is_hidden(n)),
{
    let ghost all = names_view(names@);
    let ghost keep = |n: Seq<char>| !is_hidden(n);
    let mut out: Vec<String> = Vec::new();
    let mut i: usize = 0;
    while i < names.len()
        invariant
            all == names_view(names@),
            keep == (|n: Seq<char>| !is_hidden(n)),
            i <= names.len(),
            names_view(out@) == all.subrange(0, i as int).filter(keep),
        decreases names.len() - i,
    {
        proof {
            reveal(Seq::filter);
            assert(all.subrange(0, i + 1).drop_last() =~= all.subrange(0, i as int));
        }
        let s = names[i].as_str();
        let hidden = s.unicode_len() > 0 && s.get_char(0) == '.';
        if !hidden {
            out.push(names[i].clone());
            assert(names_view(out@) =~= all.subrange(0, i + 1).filter(keep));
        }
        i = i + 1;
    }
    assert(all.subrange(0, names.len() as int) =~= all);
    out
}

impl Version {
    /// The stored aliases that point at this version, in the given order.
    pub fn find_aliases(&self, aliases: &Vec<StoredAlias>) -> (r: Vec<StoredAlias>)
        ensures
            aliases_view(r@) == aliases_view(aliases@).filter(
                |a: (Seq<char>, Seq<char>)| a.1 == render(self@),
            ),
    {
        let ghost all = aliases_view(aliases@);
        let ghost keep = |a: (Seq<char>, Seq<char>)| a.1 == render(self@);
        let name = self.v_str();
        let mut out: Vec<StoredAlias> = Vec::new();
        let mut i: usize = 0;
        while i < aliases.len()
            invariant
                all == aliases_view(aliases@),
                keep == (|a: (Seq<char>, Seq<char>)| a.1 == render(self@)),
                name@ == render(self@),
                i <= aliases.len(),
                aliases_view(out@) == all.subrange(0, i as int).filter(keep),
            decreases aliases.len() - i,
        {
            proof {
                reveal(Seq::filter);
                assert(all.subrange(0, i + 1).drop_last() =~= all.subrange(0, i as int));
            }
            if str_eq(aliases[i].target.as_str(), name.as_str()) {
                out.push(aliases[i].clone());
                assert(aliases_view(out@) =~= all.subrange(0, i + 1).filter(keep));
            }
            i = i + 1;
        }
        assert(all.subrange(0, aliases.len() as int) =~= all);
        out
    }
}

/// Points the alias `name` at the installed version `target`: the link to
/// create or replace. Refused, with no link to create, where `target` is not
/// among the installed version names.
pub fn alias_set(layout: &Layout, name: &str, target: &Version, installed: &Vec<String>) -> (r:
    Result<Relink, AliasError>)
    ensures
        names_view(installed@).contains(render(target@)) ==> (r matches Ok(l) && l.from@ == join(
            versions_dir_of(layout.base@),
            render(target@),
        ) && l.to@ == join(aliases_dir_of(layout.base@), name@)),
        !names_view(installed@).contains(render(target@)) ==> (r matches Err(
            AliasError::AliasTargetNotInstalled,
        )),
{
    let v = target.v_str();
    if !contains_name(installed, v.as_str()) {
        return Err(AliasError::AliasTargetNotInstalled);
    }
    let vd = layout.versions_dir();
    let ad = layout.aliases_dir();
    Ok(Relink { from: join_path(vd.as_str(), v.as_str()), to: join_path(ad.as_str(), name) })
}

/// The link to delete to remove the alias `name`; refused where no stored
/// alias has that name.
pub fn alias_remove(layout: &Layout, name: &str, aliases: &Vec<StoredAlias>) -> (r: Result<
    String,
    AliasError,
>)
    ensures
        (exists|k: int| 0 <= k < aliases@.len() && aliases@[k].name@ == name@) ==> (r matches Ok(
            p,
        ) && p@ == join(aliases_dir_of(layout.base@), name@)),
        !(exists|k: int| 0 <= k < aliases@.len() && aliases@[k].name@ == name@) ==> (r matches Err(
            AliasError::AliasNotFound,
        )),
{
    let mut i: usize = 0;
    while i < aliases.len()
        invariant
            i <= aliases.len(),
            forall|k: int| 0 <= k < i ==> aliases@[k].name@ != name@,
        decreases aliases.len() - i,
    {
        if str_eq(aliases[i].name.as_str(), name) {
            let ad = layout.aliases_dir();
            return Ok(join_path(ad.as_str(), name));
        }
        i = i + 1;
    }
    Err(AliasError::AliasNotFound)
}

} // verus!
