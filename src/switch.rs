//! Repointing a link: a new link is staged beside the old one and renamed
//! over it, so readers always find a link.

use vstd::prelude::*;
use vstd::string::*;
use crate::text::str_eq;

verus! {

/// The link as readers see it: its target, if it exists.
#[derive(Debug, PartialEq, Eq)]
pub struct LinkState {
    pub target: Option<String>,
}

/// One link to repoint: the link at `to` is to point at `from`.
#[derive(Debug, PartialEq, Eq)]
pub struct Relink {
    pub from: String,
    pub to: String,
}

/// Why a link could not be repointed.
#[derive(Debug)]
pub enum SwapError {
    /// Creating the new link failed; the stale one was cleared.
    Create(String),
    /// Clearing the stale link and creating the new one both failed.
    Combined { removal: String, creation: String },
}

/// Combines the outcomes of clearing the stale staged link and of creating
/// the new link in its place. A created link makes a failed clearing moot;
/// where creation fails the link is left as it was, and both failures are
/// reported where both happened.
pub fn replace_symlink(
    link: &mut LinkState,
    from: &str,
    removal: Result<(), String>,
    creation: Result<(), String>,
) -> (r: Result<(), SwapError>)
    ensures
        creation is Ok ==> (r is Ok && (final(link).target matches Some(t) && t@ == from@)),
        creation is Err ==> *final(link) == *old(link),
        creation matches Err(c) ==> match removal {
            Ok(_) => (r matches Err(SwapError::Create(e)) && e == c),
            Err(d) => (r matches Err(SwapError::Combined { removal: x, creation: y }) && x == d
                && y == c),
        },
{
    match creation {
        Ok(()) => {
            link.target = Some(String::from_str(from));
            Ok(())
        },
        Err(c) => match removal {
            Ok(()) => Err(SwapError::Create(c)),
            Err(d) => Err(SwapError::Combined { removal: d, creation: c }),
        },
    }
}

/// Whether the link currently points at `dir`.
pub fn points_at(link: &LinkState, dir: &str) -> (r: bool)
    ensures
        r == (link.target matches Some(t) && t@ == dir@),
{
    match &link.target {
        Some(t) => str_eq(t.as_str(), dir),
        None => false,
    }
}

} // verus!
