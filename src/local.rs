//! The `local` and `global` commands: which links to repoint, decided from
//! the resolved version and the installed versions.

use vstd::prelude::*;
use vstd::string::*;
use crate::layout::{current_link_of, default_link_of, join, join_path, versions_dir_of, Layout};
use crate::resolve::{files_view, resolve, resolve_spec, ResolveError};
use crate::switch::Relink;
use crate::text::{contains_name, names_view};
use crate::version::{parse_spec, render, ParseError, Version, VersionModel};

verus! {

/// Why `local` could not switch.
#[derive(Debug)]
pub enum FarmError {
    /// The chosen text asks for a semantic version that it does not spell.
    Parse(ParseError),
    /// Neither an argument nor a version file names a version.
    CantInferVersion,
    /// The resolved version is not installed.
    VersionNotFound { version: Version },
}

/// What `local` decided: a link to repoint, if any, and the outcome.
pub struct LocalPlan {
    pub relink: Option<Relink>,
    pub result: Result<Version, FarmError>,
}

/// The `local` command: switch the shell's active link to a version.
pub struct Local {
    pub version: Option<String>,
}

/// The optional text, viewed.
pub open spec fn opt_view(o: Option<String>) -> Option<Seq<char>> {
    match o {
        Some(s) => Some(s@),
        None => None,
    }
}

/// Whether a relink points `to` at `from`.
pub open spec fn relinks(l: Relink, from: Seq<char>, to: Seq<char>) -> bool {
    l.from@ == from && l.to@ == to
}

impl Local {
    /// Decides the switch. With no version named anywhere the shell's link
    /// goes back to the global default and the command fails with
    /// `CantInferVersion`; an installed version gets the shell's link; any
    /// other outcome repoints nothing.
    pub fn apply(&self, layout: &Layout, version_files: &Vec<Option<String>>, installed: &Vec<
        String,
    >) -> (r: LocalPlan)
        ensures
            match resolve_spec(opt_view(self.version), files_view(version_files@)) {
                None => (r.relink matches Some(l) && relinks(
                    l,
                    default_link_of(layout.base@),
                    current_link_of(layout.base@),
                )) && r.result matches Err(FarmError::CantInferVersion),
                Some(None) => r.relink is None && r.result matches Err(FarmError::Parse(_)),
                Some(Some(v)) => if names_view(installed@).contains(render(v)) {
                    (r.relink matches Some(l) && relinks(
                        l,
                        join(versions_dir_of(layout.base@), render(v)),
                        current_link_of(layout.base@),
                    )) && (r.result matches Ok(x) && x@ == v)
                } else {
                    r.relink is None && (r.result matches Err(
                        FarmError::VersionNotFound { version },
                    ) && version@ == v)
                },
            },
    {
        let explicit = match &self.version {
            Some(s) => Some(s.as_str()),
            None => None,
        };
        match resolve(explicit, version_files) {
            Err(ResolveError::CantInferVersion) => LocalPlan {
                relink: Some(
                    Relink { from: layout.default_version_dir(), to: layout.current_link() },
                ),
                result: Err(FarmError::CantInferVersion),
            },
            Err(ResolveError::Parse(p)) => LocalPlan {
                relink: None,
                result: Err(FarmError::Parse(p)),
            },
            Ok(v) => {
                let name = v.v_str();
                if contains_name(installed, name.as_str()) {
                    let vd = layout.versions_dir();
                    LocalPlan {
                        relink: Some(
                            Relink {
                                from: join_path(vd.as_str(), name.as_str()),
                                to: layout.current_link(),
                            },
                        ),
                        result: Ok(v),
                    }
                } else {
                    LocalPlan { relink: None, result: Err(FarmError::VersionNotFound { version: v }) }
                }
            },
        }
    }
}

/// Why `global` could not switch.
#[derive(Debug)]
pub enum GlobalError {
    /// The text is not an exact semantic version.
    Parse(ParseError),
    /// The version is not installed.
    VersionNotFound { version: Version },
}

/// The `global` command: make an installed exact version the default, and
/// the shell's active version.
pub struct Global {
    pub version: String,
}

impl Global {
    /// Decides the switch: the global-default link, then the shell's link,
    /// both to the installation. Refused where the text is not an exact
    /// version or the version is not installed.
    pub fn apply(&self, layout: &Layout, installed: &Vec<String>) -> (r: Result<
        Vec<Relink>,
        GlobalError,
    >)
        ensures
            match parse_spec(self.version@) {
                Some(VersionModel::Exact(p)) => if names_view(installed@).contains(
                    render(VersionModel::Exact(p)),
                ) {
                    r matches Ok(ls) && ls@.len() == 2 && relinks(
                        ls@[0],
                        join(versions_dir_of(layout.base@), render(VersionModel::Exact(p))),
                        default_link_of(layout.base@),
                    ) && relinks(
                        ls@[1],
                        join(versions_dir_of(layout.base@), render(VersionModel::Exact(p))),
                        current_link_of(layout.base@),
                    )
                } else {
                    r matches Err(GlobalError::VersionNotFound { version }) && version@
                        == VersionModel::Exact(p)
                },
                _ => r matches Err(GlobalError::Parse(_)),
            },
    {
        let v = match Version::parse(self.version.as_str()) {
            Ok(Version::Alias(_)) => {
                return Err(GlobalError::Parse(ParseError { text: self.version.clone() }));
            },
            Ok(v) => v,
            Err(p) => {
                return Err(GlobalError::Parse(p));
            },
        };
        let name = v.v_str();
        if !contains_name(installed, name.as_str()) {
            return Err(GlobalError::VersionNotFound { version: v });
        }
        let vd = layout.versions_dir();
        let dir = join_path(vd.as_str(), name.as_str());
        let mut out: Vec<Relink> = Vec::new();
        out.push(Relink { from: dir.clone(), to: layout.default_version_dir() });
        out.push(Relink { from: dir, to: layout.current_link() });
        Ok(out)
    }
}

} // verus!
