//! Semantic versions, as far as entries need them: the numbers and labels of
//! a version, its text, and whether it meets a requirement.

use vstd::prelude::*;
use vstd::string::*;
use crate::text::{decimal, decimal_text};

verus! {

/// A semantic version.
#[derive(Debug, Clone, PartialEq, Eq)]
pub struct Version {
    pub major: u64,
    pub minor: u64,
    pub patch: u64,
    /// The pre-release label, without its `-`; empty for a release.
    pub pre: String,
    /// The build metadata, without its `+`; empty where there is none.
    pub build: String,
}

/// A `Version` with its labels as sequences of characters.
pub struct VersionView {
    pub major: u64,
    pub minor: u64,
    pub patch: u64,
    pub pre: Seq<char>,
    pub build: Seq<char>,
}

impl View for Version {
    type V = VersionView;

    open spec fn view(&self) -> VersionView {
        VersionView {
            major: self.major,
            minor: self.minor,
            patch: self.patch,
            pre: self.pre@,
            build: self.build@,
        }
    }
}

/// The view of a version that may be missing.
pub open spec fn opt_version_view(version: Option<Version>) -> Option<VersionView> {
    match version {
        Some(v) => Some(v@),
        None => None,
    }
}

/// What `semver::Version::parse` makes of `text`: `None` where it refuses
/// the text, else the version it returns.
pub uninterp spec fn semver_parse(text: Seq<char>) -> Option<VersionView>;

/// What `semver::VersionReq::matches` says of `version` for the requirement
/// that `semver::VersionReq::parse` reads from `req`. `None` where `req` is
/// no requirement, or where the labels of `version` are none that semver
/// accepts.
pub uninterp spec fn semver_matches(req: Seq<char>, version: VersionView) -> Option<bool>;

/// Reads a version with `semver::Version::parse`. The result is that
/// function's, its labels copied out as text.
#[verifier::external_body]
pub(crate) fn parse_version(text: &str) -> (version: Option<Version>)
    ensures
        opt_version_view(version) == semver_parse(text@),
{
    let v = semver::Version::parse(text).ok()?;
    Some(
        Version {
            major: v.major,
            minor: v.minor,
            patch: v.patch,
            pre: v.pre.as_str().to_string(),
            build: v.build.as_str().to_string(),
        },
    )
}

/// Reads a requirement with `semver::VersionReq::parse` and asks its
/// `matches` about `version`, which is handed over as a `semver::Version`
/// with the same numbers and labels.
#[verifier::external_body]
pub(crate) fn requirement_matches(req: &str, version: &Version) -> (matched: Option<bool>)
    ensures
        matched == semver_matches(req@, version@),
{
    let req = semver::VersionReq::parse(req).ok()?;
    let pre = semver::Prerelease::new(&version.pre).ok()?;
    let build = semver::BuildMetadata::new(&version.build).ok()?;
    let version = semver::Version {
        major: version.major,
        minor: version.minor,
        patch: version.patch,
        pre,
        build,
    };
    Some(req.matches(&version))
}

/// The three numbers with a dot between each two.
pub open spec fn triple_text(major: u64, minor: u64, patch: u64) -> Seq<char> {
    decimal(major as nat) + "."@ + decimal(minor as nat) + "."@ + decimal(patch as nat)
}

/// The version as text: the three numbers, then `-` and the pre-release
/// label where there is one, then `+` and the build metadata where there is
/// any.
pub open spec fn version_text(v: VersionView) -> Seq<char> {
    triple_text(v.major, v.minor, v.patch) + (if v.pre.len() > 0 {
        "-"@ + v.pre
    } else {
        Seq::empty()
    }) + (if v.build.len() > 0 {
        "+"@ + v.build
    } else {
        Seq::empty()
    })
}

impl Version {
    /// The release with these numbers, without labels.
    pub fn new(major: u64, minor: u64, patch: u64) -> (version: Version)
        ensures
            version@ == (VersionView {
                major,
                minor,
                patch,
                pre: Seq::empty(),
                build: Seq::empty(),
            }),
    {
        Version { major, minor, patch, pre: String::new(), build: String::new() }
    }

    /// The version as text.
    pub fn to_string(&self) -> (text: String)
        ensures
            text@ == version_text(self@),
    {
        let mut text = decimal_text(self.major);
        text.append(".");
        text.append(decimal_text(self.minor).as_str());
        text.append(".");
        text.append(decimal_text(self.patch).as_str());
        assert(text@ =~= triple_text(self.major, self.minor, self.patch));
        if self.pre.as_str().unicode_len() > 0 {
            text.append("-");
            text.append(self.pre.as_str());
        }
        if self.build.as_str().unicode_len() > 0 {
            text.append("+");
            text.append(self.build.as_str());
        }
        assert(text@ =~= version_text(self@));
        text
    }
}

} // verus!
