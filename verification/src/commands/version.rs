//! Showing the version of a build.

use vstd::prelude::*;
use vstd::string::*;
use crate::text::{decimal, decimal_text};
use crate::version::{triple_text, Version, VersionView};

verus! {

/// `text` where `wanted` holds, and nothing otherwise.
pub open spec fn text_if(wanted: bool, text: Seq<char>) -> Seq<char> {
    if wanted {
        text
    } else {
        Seq::empty()
    }
}

/// The line that shows a version: the three numbers with dots between them
/// where none is asked for, else the numbers asked for, one after another
/// with nothing between them. The line ends with a line feed.
pub open spec fn version_line(version: VersionView, major: bool, minor: bool, patch: bool) -> Seq<
    char,
> {
    if !(major || minor || patch) {
        triple_text(version.major, version.minor, version.patch) + "\n"@
    } else {
        text_if(major, decimal(version.major as nat)) + text_if(
            minor,
            decimal(version.minor as nat),
        ) + text_if(patch, decimal(version.patch as nat)) + "\n"@
    }
}

/// The line to print for `version`, given which of its numbers are asked
/// for.
pub fn version_command(version: &Version, major: bool, minor: bool, patch: bool) -> (line: String)
    ensures
        line@ == version_line(version@, major, minor, patch),
{
    let mut line = String::new();
    if !(major || minor || patch) {
        line.append(decimal_text(version.major).as_str());
        line.append(".");
        line.append(decimal_text(version.minor).as_str());
        line.append(".");
        line.append(decimal_text(version.patch).as_str());
    } else {
        if major {
            line.append(decimal_text(version.major).as_str());
        }
        if minor {
            line.append(decimal_text(version.minor).as_str());
        }
        if patch {
            line.append(decimal_text(version.patch).as_str());
        }
    }
    line.append("\n");
    assert(line@ =~= version_line(version@, major, minor, patch));
    line
}

} // verus!
