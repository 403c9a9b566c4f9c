//! The installation pipeline as a state machine: download, extract into a
//! private staging area, build, and promote into the installations
//! directory. The caller performs each action and reports what happened.

use vstd::prelude::*;
use vstd::string::*;
use crate::layout::{downloads_dir_of, join, join_path, versions_dir_of, Layout};
use crate::version::{parse_spec, render, semver_text, ParseError, SemVerModel, Version, VersionModel};

verus! {

/// Why an installation failed.
#[derive(Debug)]
pub enum FarmError {
    /// The requested text is not an exact semantic version.
    Parse(ParseError),
    /// The mirror has no archive for the version.
    VersionNotFound { version: String },
    /// The download failed, by transport or by status.
    DownloadFailed,
    /// The archive holds nothing.
    ArchiveEmpty,
    /// The archive does not hold exactly one top-level entry.
    ArchiveLayoutUnexpected,
    /// The build step reported failure; nothing is promoted.
    BuildFailed,
    /// Moving the built tree into place failed; the staging tree is kept.
    PromotionFailed,
    /// Unpacking failed, or an event came that the stage does not expect.
    Io,
}

/// Where the pipeline stands.
#[derive(Debug)]
pub enum InstallStage {
    Requested,
    Downloading,
    Extracting,
    Building { source: String },
    Promoting { source: String },
    Installed,
    Failed,
}

/// What the caller observed after the last action.
pub enum InstallEvent {
    /// The pipeline is to begin.
    Started,
    /// The archive request was answered with this status.
    Response { status: u16 },
    /// The archive request failed before any answer.
    TransportFailed,
    /// The archive was unpacked into `staging`, whose top-level entries are
    /// `entries`.
    Extracted { staging: String, entries: Vec<String> },
    /// Unpacking failed.
    ExtractFailed,
    /// The build step returned, successfully or not.
    Built { success: bool },
    /// Moving the built tree into place succeeded or not.
    Promoted { success: bool },
}

/// What the caller is to do next.
#[derive(Debug)]
pub enum InstallAction {
    /// Fetch the archive of this version text (see `package_url`).
    Download { version: String },
    /// Unpack the response into a fresh directory created under `staging_root`.
    Extract { staging_root: String },
    /// Build the tree at `source` for installation at `prefix`.
    Build { source: String, prefix: String },
    /// Rename `from` to `to`.
    Promote { from: String, to: String },
    /// The version is installed.
    Finish,
    /// Stop with this error; nothing more is to be done.
    Abort(FarmError),
}

/// The `install` command for one version.
pub struct Install {
    pub version: String,
}

/// The address that `reqwest::Url` gives for `file` relative to `base`, if
/// `base` is an absolute address and the join succeeds.
pub uninterp spec fn url_joined(base: Seq<char>, file: Seq<char>) -> Option<Seq<char>>;

/// Relies on `reqwest::Url::parse` of the base and `Url::join` of the file
/// name onto it, printed with `Url::as_str`: the outcome depends on the two
/// texts alone.
#[verifier::external_body]
fn join_url(base: &str, file: &str) -> (r: Option<String>)
    ensures
        match r {
            Some(u) => url_joined(base@, file@) == Some(u@),
            None => url_joined(base@, file@) is None,
        },
{
    match reqwest::Url::parse(base).and_then(|b| b.join(file)) {
        Ok(u) => Some(u.as_str().to_string()),
        Err(_) => None,
    }
}

/// The address of a version's archive on the mirror; `None` where the
/// mirror is not an absolute address.
pub fn package_url(mirror_url: &str, version: &str) -> (r: Option<String>)
    ensures
        match r {
            Some(u) => url_joined(mirror_url@, package_file_of(version@)) == Some(u@),
            None => url_joined(mirror_url@, package_file_of(version@)) is None,
        },
{
    let mut file = String::from_str("ruby-");
    file.append(version);
    file.append(".tar.xz");
    join_url(mirror_url, file.as_str())
}

/// The archive name for a version text on the mirror.
pub open spec fn package_file_of(version: Seq<char>) -> Seq<char> {
    "ruby-"@ + version + ".tar.xz"@
}

/// Where an exact version is installed.
pub open spec fn install_dir_of(base: Seq<char>, p: SemVerModel) -> Seq<char> {
    join(versions_dir_of(base), render(VersionModel::Exact(p)))
}

/// Whether a status is a success.
pub open spec fn is_success(status: u16) -> bool {
    200 <= status <= 299
}

impl Install {
    /// The exact version requested.
    fn target(&self) -> (r: Result<Version, FarmError>)
        ensures
            match parse_spec(self.version@) {
                Some(VersionModel::Exact(p)) => r matches Ok(v) && v@ == VersionModel::Exact(p),
                _ => r matches Err(FarmError::Parse(_)),
            },
    {
        match Version::parse(self.version.as_str()) {
            Ok(Version::Alias(_)) => Err(FarmError::Parse(ParseError { text: self.version.clone() })),
            Ok(v) => Ok(v),
            Err(p) => Err(FarmError::Parse(p)),
        }
    }

    /// The plain text of the exact version requested.
    fn plain_text(v: &Version) -> (r: String)
        ensures
            v@ matches VersionModel::Exact(p) ==> r@ == semver_text(p),
    {
        match v {
            Version::Semver(s) => s.plain_str(),
            Version::Alias(a) => a.clone(),
        }
    }

    /// The next stage and action, given the current stage and what the last
    /// action produced. A 404 answer means the version does not exist; any
    /// other failure aborts at the step where it occurs. The final
    /// installation directory is only ever the target of a promotion, which
    /// follows a successful build.
    pub fn apply(&self, layout: &Layout, stage: InstallStage, event: InstallEvent) -> (r: (
        InstallStage,
        InstallAction,
    ))
        ensures
            match (stage, event) {
                (InstallStage::Requested, InstallEvent::Started) => match parse_spec(self.version@) {
                    Some(VersionModel::Exact(p)) => r.0 is Downloading && (r.1 matches InstallAction::Download { version } && version@ == semver_text(p)),
                    _ => r.0 is Failed && (r.1 matches InstallAction::Abort(FarmError::Parse(_))),
                },
                (InstallStage::Downloading, InstallEvent::Response { status }) => if status == 404 {
                    r.0 is Failed && (r.1 matches InstallAction::Abort(
                        FarmError::VersionNotFound { version },
                    ) && version@ == self.version@)
                } else if is_success(status) {
                    r.0 is Extracting && (r.1 matches InstallAction::Extract { staging_root }
                        && staging_root@ == downloads_dir_of(layout.base@))
                } else {
                    r.0 is Failed && (r.1 matches InstallAction::Abort(FarmError::DownloadFailed))
                },
                (InstallStage::Downloading, InstallEvent::TransportFailed) => r.0 is Failed
                    && (r.1 matches InstallAction::Abort(FarmError::DownloadFailed)),
                (InstallStage::Extracting, InstallEvent::ExtractFailed) => r.0 is Failed
                    && (r.1 matches InstallAction::Abort(FarmError::Io)),
                (InstallStage::Extracting, InstallEvent::Extracted { staging, entries }) => if entries@.len() == 0 {
                    r.0 is Failed && (r.1 matches InstallAction::Abort(FarmError::ArchiveEmpty))
                } else if entries@.len() > 1 {
                    r.0 is Failed && (r.1 matches InstallAction::Abort(FarmError::ArchiveLayoutUnexpected))
                } else {
                    match parse_spec(self.version@) {
                        Some(VersionModel::Exact(p)) => (r.0 matches InstallStage::Building { source }
                            && source@ == join(staging@, entries@[0]@)) && (r.1 matches InstallAction::Build {
                            source,
                            prefix,
                        } && source@ == join(staging@, entries@[0]@) && prefix@ == install_dir_of(
                            layout.base@,
                            p,
                        )),
                        _ => r.0 is Failed && (r.1 matches InstallAction::Abort(FarmError::Parse(_))),
                    }
                },
                (InstallStage::Building { source }, InstallEvent::Built { success }) => if success {
                    match parse_spec(self.version@) {
                        Some(VersionModel::Exact(p)) => (r.0 matches InstallStage::Promoting { source: s }
                            && s@ == source@) && (r.1 matches InstallAction::Promote { from, to } && from@
                            == source@ && to@ == install_dir_of(layout.base@, p)),
                        _ => r.0 is Failed && (r.1 matches InstallAction::Abort(FarmError::Parse(_))),
                    }
                } else {
                    r.0 is Failed && (r.1 matches InstallAction::Abort(FarmError::BuildFailed))
                },
                (InstallStage::Promoting { source: _ }, InstallEvent::Promoted { success }) => if success {
                    r.0 is Installed && r.1 is Finish
                } else {
                    r.0 is Failed && (r.1 matches InstallAction::Abort(FarmError::PromotionFailed))
                },
                _ => r.0 is Failed && (r.1 matches InstallAction::Abort(FarmError::Io)),
            },
            r.1 is Promote ==> (stage is Building && (event matches InstallEvent::Built { success }
                && success)),
            r.0 is Failed <==> r.1 is Abort,
    {
        match (stage, event) {
            (InstallStage::Requested, InstallEvent::Started) => match self.target() {
                Ok(v) => (InstallStage::Downloading, InstallAction::Download { version: Self::plain_text(&v) }),
                Err(e) => (InstallStage::Failed, InstallAction::Abort(e)),
            },
            (InstallStage::Downloading, InstallEvent::Response { status }) => {
                if status == 404 {
                    (
                        InstallStage::Failed,
                        InstallAction::Abort(FarmError::VersionNotFound { version: self.version.clone() }),
                    )
                } else if 200 <= status && status <= 299 {
                    (InstallStage::Extracting, InstallAction::Extract { staging_root: layout.downloads_dir() })
                } else {
                    (InstallStage::Failed, InstallAction::Abort(FarmError::DownloadFailed))
                }
            },
            (InstallStage::Downloading, InstallEvent::TransportFailed) => (
                InstallStage::Failed,
                InstallAction::Abort(FarmError::DownloadFailed),
            ),
            (InstallStage::Extracting, InstallEvent::ExtractFailed) => (
                InstallStage::Failed,
                InstallAction::Abort(FarmError::Io),
            ),
            (InstallStage::Extracting, InstallEvent::Extracted { staging, entries }) => {
                if entries.len() == 0 {
                    (InstallStage::Failed, InstallAction::Abort(FarmError::ArchiveEmpty))
                } else if entries.len() > 1 {
                    (InstallStage::Failed, InstallAction::Abort(FarmError::ArchiveLayoutUnexpected))
                } else {
                    match self.target() {
                        Ok(v) => {
                            let source = join_path(staging.as_str(), entries[0].as_str());
                            let prefix = v.installation_path(layout).unwrap();
                            (
                                InstallStage::Building { source: source.clone() },
                                InstallAction::Build { source, prefix },
                            )
                        },
                        Err(e) => (InstallStage::Failed, InstallAction::Abort(e)),
                    }
                }
            },
            (InstallStage::Building { source }, InstallEvent::Built { success }) => {
                if !success {
                    (InstallStage::Failed, InstallAction::Abort(FarmError::BuildFailed))
                } else {
                    match self.target() {
                        Ok(v) => {
                            let to = v.installation_path(layout).unwrap();
                            (
                                InstallStage::Promoting { source: source.clone() },
                                InstallAction::Promote { from: source, to },
                            )
                        },
                        Err(e) => (InstallStage::Failed, InstallAction::Abort(e)),
                    }
                }
            },
            (InstallStage::Promoting { source: _ }, InstallEvent::Promoted { success }) => {
                if success {
                    (InstallStage::Installed, InstallAction::Finish)
                } else {
                    (InstallStage::Failed, InstallAction::Abort(FarmError::PromotionFailed))
                }
            },
            (_, _) => (InstallStage::Failed, InstallAction::Abort(FarmError::Io)),
        }
    }
}

} // verus!
