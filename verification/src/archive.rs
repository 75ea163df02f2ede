//! Downloading an archive and unpacking it: the decisions between the steps
//! that touch the network and the disk.

use vstd::prelude::*;
use vstd::string::*;
use crate::command::result_unit_view;
use crate::config::{join_path, path_join};
use crate::error::{Error, ErrorView};
use crate::text::{number_u64, parse_u64, views};

verus! {

/// A server's answer counts as success where its status is 200 to 299.
pub open spec fn is_success(status: u16) -> bool {
    200 <= status && status <= 299
}

/// What the status of an answer means for the download of `url`.
pub open spec fn check_status_spec(url: Seq<char>, status: u16) -> Result<(), ErrorView> {
    if is_success(status) {
        Ok(())
    } else {
        Err(ErrorView::HttpError { url, status })
    }
}

/// Judges the status with which a server answered the request for `url`.
pub fn check_status(url: &str, status: u16) -> (outcome: Result<(), Error>)
    ensures
        result_unit_view(outcome) == check_status_spec(url@, status),
{
    if 200 <= status && status <= 299 {
        Ok(())
    } else {
        Err(Error::HttpError { url: String::from_str(url), status })
    }
}

/// The number of bytes that an answer announces: what its `Content-Length`
/// header writes, and 0 where the header is missing or writes no number.
pub open spec fn content_length_spec(header: Option<Seq<char>>) -> u64 {
    match header {
        Some(text) => match number_u64(text) {
            Some(n) => n,
            None => 0,
        },
        None => 0,
    }
}

/// The length to show progress against, from the `Content-Length` header of
/// an answer.
pub fn content_length(header: Option<&str>) -> (total: u64)
    ensures
        total == content_length_spec(
            match header {
                Some(text) => Some(text@),
                None => None,
            },
        ),
{
    match header {
        Some(text) => match parse_u64(text) {
            Some(n) => n,
            None => 0,
        },
        None => 0,
    }
}

/// Why an entry of an archive could not be unpacked.
#[derive(Debug, Clone, Copy, PartialEq, Eq)]
pub enum UnpackFailure {
    /// Its target exists already.
    AlreadyExists,
    /// Anything else.
    Other,
}

/// How loudly a failure is reported. None stops the unpacking.
#[derive(Debug, Clone, Copy, PartialEq, Eq)]
pub enum Report {
    /// For those who asked for details.
    Debug,
    /// A warning.
    Warn,
}

/// How to report that an entry could not be unpacked: an entry that exists
/// already is worth a detail, any other failure a warning. Unpacking goes on
/// with the next entry either way.
pub fn unpack_report(failure: UnpackFailure) -> (report: Report)
    ensures
        report == match failure {
            UnpackFailure::AlreadyExists => Report::Debug,
            UnpackFailure::Other => Report::Warn,
        },
{
    match failure {
        UnpackFailure::AlreadyExists => Report::Debug,
        UnpackFailure::Other => Report::Warn,
    }
}

/// `base` with each of `parts` joined to it in turn.
pub open spec fn join_all(base: Seq<char>, parts: Seq<Seq<char>>) -> Seq<char>
    decreases parts.len(),
{
    if parts.len() == 0 {
        base
    } else {
        path_join(join_all(base, parts.drop_last()), parts.last())
    }
}

/// All components of a path but the first.
pub open spec fn without_first(components: Seq<Seq<char>>) -> Seq<Seq<char>> {
    if components.len() == 0 {
        components
    } else {
        components.subrange(1, components.len() as int)
    }
}

/// Where an entry of an archive goes: below `tool_name` in `dest`, by the
/// entry's own path without its first component.
pub open spec fn unpack_target_spec(
    dest: Seq<char>,
    tool_name: Seq<char>,
    components: Seq<Seq<char>>,
) -> Seq<char> {
    join_all(path_join(dest, tool_name), without_first(components))
}

/// The path to unpack an entry of an archive to. `components` are the
/// components of the entry's path inside the archive: the first, the
/// directory that the archive wraps around its content, is dropped, and the
/// others are joined in turn to the directory `tool_name` of `dest`.
pub fn unpack_target(dest: &str, tool_name: &str, components: &Vec<String>) -> (target: String)
    ensures
        target@ == unpack_target_spec(dest@, tool_name@, views(components@)),
{
    let mut target = join_path(dest, tool_name);
    let ghost rest = without_first(views(components@));
    let mut i: usize = 1;
    while i < components.len()
        invariant
            1 <= i,
            components.len() >= 1 ==> i <= components.len(),
            rest == without_first(views(components@)),
            i <= components.len() ==> target@ == join_all(
                path_join(dest@, tool_name@),
                rest.take(i - 1),
            ),
            components.len() == 0 ==> target@ == path_join(dest@, tool_name@),
        decreases components.len() - i,
    {
        let ghost next = rest.take(i as int);
        assert(next.drop_last() =~= rest.take(i - 1));
        assert(next.last() == components@[i as int]@);
        target = join_path(target.as_str(), components[i].as_str());
        i += 1;
    }
    assert(components.len() > 0 ==> rest.take(components.len() - 1) =~= rest);
    target
}

/// Unpacking drops exactly the first component of an entry's path, whatever
/// it is, and keeps the others in order below the tool's directory.
pub proof fn lemma_first_component_dropped(
    dest: Seq<char>,
    tool_name: Seq<char>,
    first: Seq<char>,
    rest: Seq<Seq<char>>,
)
    ensures
        unpack_target_spec(dest, tool_name, seq![first] + rest) == join_all(
            path_join(dest, tool_name),
            rest,
        ),
{
    assert(without_first(seq![first] + rest) =~= rest);
}

} // verus!
