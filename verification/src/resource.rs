//! Where a source tree comes from: a Subversion repository, a Git repository
//! or a tar archive, told apart by the shape of the URL.

use vstd::prelude::*;
use vstd::string::*;
use crate::command::{check_spec, Invocation, InvocationView};
use crate::config::{join_path, path_join};
use crate::error::{result_view, Error, ErrorView};
use crate::text::{
    ends_with, has_prefix, has_suffix, opt_view, push_text, same_text, starts_with, views,
};
use crate::weburl::{filename, parse_url, parts_view, url_parts, UrlParts, UrlPartsView};

verus! {

/// A remote source of LLVM/Clang.
#[derive(Debug, Clone, PartialEq, Eq)]
pub enum Resource {
    /// A Subversion repository.
    Svn { url: String },
    /// A Git repository, with the branch to check out where one is named.
    Git { url: String, branch: Option<String> },
    /// A tar archive.
    Tar { url: String },
}

/// A `Resource` with its texts as sequences of characters.
pub enum ResourceView {
    Svn { url: Seq<char> },
    Git { url: Seq<char>, branch: Option<Seq<char>> },
    Tar { url: Seq<char> },
}

impl View for Resource {
    type V = ResourceView;

    open spec fn view(&self) -> ResourceView {
        match *self {
            Resource::Svn { url } => ResourceView::Svn { url: url@ },
            Resource::Git { url, branch } => ResourceView::Git { url: url@, branch: opt_view(branch) },
            Resource::Tar { url } => ResourceView::Tar { url: url@ },
        }
    }
}

/// What the shape of a URL tells about it.
#[derive(Debug, Clone, PartialEq, Eq)]
pub enum Detection {
    /// The shape decides.
    Known(Resource),
    /// The shape decides nothing: only asking the remote with git can tell.
    Unknown,
}

/// A `Detection` with its resource taken by its view.
pub enum DetectionView {
    Known(ResourceView),
    Unknown,
}

impl View for Detection {
    type V = DetectionView;

    open spec fn view(&self) -> DetectionView {
        match *self {
            Detection::Known(resource) => DetectionView::Known(resource@),
            Detection::Unknown => DetectionView::Unknown,
        }
    }
}

/// The name ends like a tar archive's.
pub open spec fn is_archive_name(name: Seq<char>) -> bool {
    ||| ends_with(name, ".tar.gz"@)
    ||| ends_with(name, ".tar.xz"@)
    ||| ends_with(name, ".tar.bz2"@)
    ||| ends_with(name, ".tar.Z"@)
    ||| ends_with(name, ".tgz"@)
    ||| ends_with(name, ".taz"@)
}

/// The host is a service that serves Git repositories.
pub open spec fn is_git_service(host: Option<Seq<char>>) -> bool {
    host == Some("github.com"@) || host == Some("gitlab.com"@)
}

/// The Git repository that a URL names: the fragment is the branch, and the
/// URL is kept without it.
pub open spec fn git_of(parts: UrlPartsView) -> ResourceView {
    ResourceView::Git { url: parts.without_fragment, branch: parts.fragment }
}

/// What the file name at the end of the path decides, if anything.
pub open spec fn by_filename(url: Seq<char>, parts: UrlPartsView) -> Option<ResourceView> {
    match filename(Some(parts)) {
        Some(name) => if is_archive_name(name) {
            Some(ResourceView::Tar { url })
        } else if ends_with(name, "trunk"@) {
            Some(ResourceView::Svn { url })
        } else if ends_with(name, ".git"@) {
            Some(git_of(parts))
        } else {
            None
        },
        None => None,
    }
}

/// What the host and the start of the path decide, if anything.
pub open spec fn by_host(url: Seq<char>, parts: UrlPartsView) -> Option<ResourceView> {
    if is_git_service(parts.host) {
        Some(git_of(parts))
    } else if parts.host == Some("llvm.org"@) && starts_with(parts.path, "/svn"@) {
        Some(ResourceView::Svn { url })
    } else if parts.host == Some("llvm.org"@) && starts_with(parts.path, "/git"@) {
        Some(git_of(parts))
    } else {
        None
    }
}

/// What the shape of `url` tells, given what parsing made of it. The file
/// name is asked first, then the host; a text that is no URL is refused.
pub open spec fn detect_spec(url: Seq<char>, parts: Option<UrlPartsView>) -> Result<
    DetectionView,
    ErrorView,
> {
    match parts {
        None => Err(ErrorView::InvalidUrl { url }),
        Some(p) => match by_filename(url, p) {
            Some(resource) => Ok(DetectionView::Known(resource)),
            None => match by_host(url, p) {
                Some(resource) => Ok(DetectionView::Known(resource)),
                None => Ok(DetectionView::Unknown),
            },
        },
    }
}

/// What a URL of undecided shape is, once git has been asked to list the
/// remote: a Git repository where it could, a Subversion repository where it
/// could not.
pub open spec fn probe_spec(url: Seq<char>, parts: Option<UrlPartsView>, git_access: bool) -> Result<
    ResourceView,
    ErrorView,
> {
    match parts {
        None => Err(ErrorView::InvalidUrl { url }),
        Some(p) => if git_access {
            Ok(git_of(p))
        } else {
            Ok(ResourceView::Svn { url })
        },
    }
}

/// The resource that `url` names: what its shape tells, and else what the
/// listing with git told.
pub open spec fn resolve_spec(url: Seq<char>, parts: Option<UrlPartsView>, git_access: bool) -> Result<
    ResourceView,
    ErrorView,
> {
    match detect_spec(url, parts) {
        Ok(DetectionView::Known(resource)) => Ok(resource),
        Ok(DetectionView::Unknown) => probe_spec(url, parts, git_access),
        Err(e) => Err(e),
    }
}

fn archive_name(name: &str) -> (found: bool)
    ensures
        found == is_archive_name(name@),
{
    has_suffix(name, ".tar.gz") || has_suffix(name, ".tar.xz") || has_suffix(name, ".tar.bz2")
        || has_suffix(name, ".tar.Z") || has_suffix(name, ".tgz") || has_suffix(name, ".taz")
}

fn host_is(parts: &UrlParts, name: &str) -> (same: bool)
    ensures
        same == (parts@.host == Some(name@)),
{
    match &parts.host {
        Some(host) => same_text(host.as_str(), name),
        None => false,
    }
}

fn git_from(parts: UrlParts) -> (resource: Resource)
    ensures
        resource@ == git_of(parts@),
{
    Resource::Git { url: parts.without_fragment, branch: parts.fragment }
}

fn invalid_url(url_str: &str) -> (e: Error)
    ensures
        e@ == (ErrorView::InvalidUrl { url: url_str@ }),
{
    Error::InvalidUrl { url: String::from_str(url_str) }
}

/// The kind that a file name alone decides.
enum NameKind {
    Archive,
    Trunk,
    Git,
    Plain,
}

fn name_kind(parts: &UrlParts) -> (kind: NameKind)
    ensures
        match filename(Some(parts@)) {
            Some(name) => {
                &&& kind is Archive <==> is_archive_name(name)
                &&& kind is Trunk <==> !is_archive_name(name) && ends_with(name, "trunk"@)
                &&& kind is Git <==> !is_archive_name(name) && !ends_with(name, "trunk"@)
                    && ends_with(name, ".git"@)
            },
            None => kind is Plain,
        },
{
    match parts.filename() {
        Some(name) => {
            if archive_name(name.as_str()) {
                NameKind::Archive
            } else if has_suffix(name.as_str(), "trunk") {
                NameKind::Trunk
            } else if has_suffix(name.as_str(), ".git") {
                NameKind::Git
            } else {
                NameKind::Plain
            }
        },
        None => NameKind::Plain,
    }
}

impl Resource {
    /// Tells from the parts of a URL what kind of resource it names, as far
    /// as its shape decides. `url_str` is the text that was parsed and `parts`
    /// what parsing made of it, `None` where it is no URL.
    pub fn detect_parsed(url_str: &str, parts: Option<UrlParts>) -> (found: Result<Detection, Error>)
        ensures
            result_view(found) == detect_spec(url_str@, parts_view(parts)),
    {
        let parts = match parts {
            Some(parts) => parts,
            None => {
                return Err(invalid_url(url_str));
            },
        };
        match name_kind(&parts) {
            NameKind::Archive => {
                return Ok(Detection::Known(Resource::Tar { url: String::from_str(url_str) }));
            },
            NameKind::Trunk => {
                return Ok(Detection::Known(Resource::Svn { url: String::from_str(url_str) }));
            },
            NameKind::Git => {
                return Ok(Detection::Known(git_from(parts)));
            },
            NameKind::Plain => {},
        }
        if host_is(&parts, "github.com") || host_is(&parts, "gitlab.com") {
            return Ok(Detection::Known(git_from(parts)));
        }
        if host_is(&parts, "llvm.org") {
            if has_prefix(parts.path.as_str(), "/svn") {
                return Ok(Detection::Known(Resource::Svn { url: String::from_str(url_str) }));
            }
            if has_prefix(parts.path.as_str(), "/git") {
                return Ok(Detection::Known(git_from(parts)));
            }
        }
        Ok(Detection::Unknown)
    }

    /// Tells from the shape of a URL what kind of resource it names, without
    /// touching the network.
    pub fn detect(url_str: &str) -> (found: Result<Detection, Error>)
        ensures
            result_view(found) == detect_spec(url_str@, url_parts(url_str@)),
    {
        Resource::detect_parsed(url_str, parse_url(url_str))
    }

    /// The resource behind a URL whose shape decided nothing, from its parts
    /// and from what listing the remote with git gave.
    pub fn from_probe_parsed(url_str: &str, parts: Option<UrlParts>, git_access: bool) -> (found:
        Result<Resource, Error>)
        ensures
            result_view(found) == probe_spec(url_str@, parts_view(parts), git_access),
    {
        match parts {
            None => Err(invalid_url(url_str)),
            Some(parts) => {
                if git_access {
                    Ok(git_from(parts))
                } else {
                    Ok(Resource::Svn { url: String::from_str(url_str) })
                }
            },
        }
    }

    /// The resource behind a URL whose shape decided nothing. `git_access`
    /// says whether git could list the remote.
    pub fn from_probe(url_str: &str, git_access: bool) -> (found: Result<Resource, Error>)
        ensures
            result_view(found) == probe_spec(url_str@, url_parts(url_str@), git_access),
    {
        Resource::from_probe_parsed(url_str, parse_url(url_str), git_access)
    }

    /// Detects the resource that a URL names. `git_access` says whether git
    /// could list the remote; it is read only where the shape of the URL
    /// decides nothing.
    pub fn from_url(url_str: &str, git_access: bool) -> (found: Result<Resource, Error>)
        ensures
            result_view(found) == resolve_spec(url_str@, url_parts(url_str@), git_access),
    {
        match Resource::detect(url_str) {
            Ok(Detection::Known(resource)) => Ok(resource),
            Ok(Detection::Unknown) => Resource::from_probe(url_str, git_access),
            Err(e) => Err(e),
        }
    }
}

/// What stands at the place where a source tree is to go.
#[derive(Debug, Clone, Copy, PartialEq, Eq)]
pub enum DirState {
    /// Nothing.
    Missing,
    /// A directory without entries.
    Empty,
    /// A directory with entries.
    Occupied,
    /// Something that is no directory.
    NotADirectory,
}

/// What to do with a repository whose destination already holds files.
#[derive(Debug, Clone, Copy, PartialEq, Eq)]
pub enum WhenOccupied {
    /// Leave the directory as it is.
    Skip,
    /// Run the checkout all the same, and let the client judge.
    Attempt,
}

/// The work that brings a source tree to its place.
#[derive(Debug, Clone, PartialEq, Eq)]
pub enum Work {
    /// Nothing is to be done.
    Nothing,
    /// Run a version-control client.
    Run(Invocation),
    /// Unpack the archive from `url` under the directory `tool_name` of the
    /// destination. `archive` is the file in the directory `cache` that
    /// holds it; where `download` is set the file is not there yet, and the
    /// archive is first downloaded and written to it.
    Unpack { url: String, cache: String, archive: String, tool_name: String, download: bool },
}

/// `Work` with its texts as sequences of characters.
pub enum WorkView {
    Nothing,
    Run(InvocationView),
    Unpack {
        url: Seq<char>,
        cache: Seq<char>,
        archive: Seq<char>,
        tool_name: Seq<char>,
        download: bool,
    },
}

impl View for Work {
    type V = WorkView;

    open spec fn view(&self) -> WorkView {
        match *self {
            Work::Nothing => WorkView::Nothing,
            Work::Run(command) => WorkView::Run(command@),
            Work::Unpack { url, cache, archive, tool_name, download } => WorkView::Unpack {
                url: url@,
                cache: cache@,
                archive: archive@,
                tool_name: tool_name@,
                download,
            },
        }
    }
}

/// How to fetch a resource: whether the destination has to be made first,
/// and the work that follows.
#[derive(Debug, Clone, PartialEq, Eq)]
pub struct Fetch {
    pub create_dir: bool,
    pub work: Work,
}

/// A `Fetch` with its work taken by its view.
pub struct FetchView {
    pub create_dir: bool,
    pub work: WorkView,
}

impl View for Fetch {
    type V = FetchView;

    open spec fn view(&self) -> FetchView {
        FetchView { create_dir: self.create_dir, work: self.work@ }
    }
}

/// The name of the directory, under the cache, that keeps downloaded archives.
pub const ARCHIVE_CACHE: &'static str = "cache";

/// `svn co <url> -r HEAD <dest>`.
pub open spec fn svn_checkout(url: Seq<char>, dest: Seq<char>) -> InvocationView {
    InvocationView {
        program: "svn"@,
        args: seq!["co"@, url, "-r"@, "HEAD"@, dest],
        dir: None,
        silent: false,
    }
}

/// `git clone <url> -q --depth 1 <dest>`, followed by `-b <branch>` where a
/// branch is named.
pub open spec fn git_clone(url: Seq<char>, branch: Option<Seq<char>>, dest: Seq<char>) -> InvocationView {
    InvocationView {
        program: "git"@,
        args: seq!["clone"@, url, "-q"@, "--depth"@, "1"@, dest] + match branch {
            Some(b) => seq!["-b"@, b],
            None => Seq::empty(),
        },
        dir: None,
        silent: false,
    }
}

/// The file name at the end of a URL, or the failure to find one.
pub open spec fn filename_spec(url: Seq<char>, parts: Option<UrlPartsView>) -> Result<
    Seq<char>,
    ErrorView,
> {
    match filename(parts) {
        Some(name) => Ok(name),
        None => Err(ErrorView::InvalidUrl { url }),
    }
}

/// The file that keeps the archive of a resource, once downloaded: in the
/// archive cache, under the file name at the end of the URL. A resource that
/// is no archive has none, and an archive whose URL ends in no file name is
/// refused.
pub open spec fn archive_file_spec(
    resource: ResourceView,
    parts: Option<UrlPartsView>,
    cache_dir: Seq<char>,
) -> Result<Option<Seq<char>>, ErrorView> {
    match resource {
        ResourceView::Tar { url } => match filename_spec(url, parts) {
            Ok(name) => Ok(Some(path_join(path_join(cache_dir, ARCHIVE_CACHE@), name))),
            Err(e) => Err(e),
        },
        _ => Ok(None),
    }
}

/// The work that fetches `resource` to `dest`. `parts` is what parsing made
/// of the resource's URL, and `cached` says whether the file that keeps the
/// archive is there already; only an archive reads the two. An archive that
/// is there is not downloaded again.
pub open spec fn work_spec(
    resource: ResourceView,
    parts: Option<UrlPartsView>,
    dest: Seq<char>,
    tool_name: Seq<char>,
    cache_dir: Seq<char>,
    state: DirState,
    cached: bool,
    when_occupied: WhenOccupied,
) -> Result<WorkView, ErrorView> {
    let skip = state is Occupied && when_occupied is Skip;
    match resource {
        ResourceView::Svn { url } => if skip {
            Ok(WorkView::Nothing)
        } else {
            Ok(WorkView::Run(svn_checkout(url, dest)))
        },
        ResourceView::Git { url, branch } => if skip {
            Ok(WorkView::Nothing)
        } else {
            Ok(WorkView::Run(git_clone(url, branch, dest)))
        },
        ResourceView::Tar { url } => match filename_spec(url, parts) {
            Ok(name) => Ok(
                WorkView::Unpack {
                    url,
                    cache: path_join(cache_dir, ARCHIVE_CACHE@),
                    archive: path_join(path_join(cache_dir, ARCHIVE_CACHE@), name),
                    tool_name,
                    download: !cached,
                },
            ),
            Err(e) => Err(e),
        },
    }
}

/// How to fetch `resource` to `dest`: refused where `dest` is no directory,
/// the directory made first where it is missing, then the work.
pub open spec fn download_spec(
    resource: ResourceView,
    parts: Option<UrlPartsView>,
    dest: Seq<char>,
    tool_name: Seq<char>,
    cache_dir: Seq<char>,
    state: DirState,
    cached: bool,
    when_occupied: WhenOccupied,
) -> Result<FetchView, ErrorView> {
    if state is NotADirectory {
        Err(ErrorView::NotADirectory { path: dest })
    } else {
        match work_spec(resource, parts, dest, tool_name, cache_dir, state, cached, when_occupied) {
            Ok(work) => Ok(FetchView { create_dir: state is Missing, work }),
            Err(e) => Err(e),
        }
    }
}

/// The URL that a resource was made from or is fetched by.
pub open spec fn url_of(resource: ResourceView) -> Seq<char> {
    match resource {
        ResourceView::Svn { url } => url,
        ResourceView::Git { url, .. } => url,
        ResourceView::Tar { url } => url,
    }
}

/// The command that brings a fetched tree up to date, run inside it: none
/// for an archive, which never changes.
pub open spec fn update_spec(resource: ResourceView, dest: Seq<char>) -> Option<InvocationView> {
    match resource {
        ResourceView::Svn { .. } => Some(
            InvocationView { program: "svn"@, args: seq!["update"@], dir: Some(dest), silent: false },
        ),
        ResourceView::Git { .. } => Some(
            InvocationView { program: "git"@, args: seq!["pull"@], dir: Some(dest), silent: false },
        ),
        ResourceView::Tar { .. } => None,
    }
}

/// The view of a command that may be missing.
pub open spec fn opt_command_view(command: Option<Invocation>) -> Option<InvocationView> {
    match command {
        Some(c) => Some(c@),
        None => None,
    }
}

/// The three commands, run in turn inside the scratch directory `dir`, that
/// ask git whether it can list the remote at `url`.
pub open spec fn probe_commands_spec(url: Seq<char>, dir: Seq<char>) -> Seq<InvocationView> {
    seq![
        InvocationView { program: "git"@, args: seq!["init"@], dir: Some(dir), silent: true },
        InvocationView {
            program: "git"@,
            args: seq!["remote"@, "add"@, "origin"@, url],
            dir: Some(dir),
            silent: true,
        },
        InvocationView { program: "git"@, args: seq!["ls-remote"@], dir: Some(dir), silent: true },
    ]
}

/// The view of each command of a sequence.
pub open spec fn command_views(commands: Seq<Invocation>) -> Seq<InvocationView> {
    commands.map_values(|c: Invocation| c@)
}

/// What the end of one of the commands that ask git means. The last command
/// gives the answer: git can list the remote where the command succeeded,
/// and cannot where it failed in any way. A command before the last only
/// prepares the question: its success lets the next one run, and its failure
/// is an error.
pub open spec fn probe_verdict_spec(commands: Seq<InvocationView>, step: int, status: Option<i32>) -> Result<
    Option<bool>,
    ErrorView,
> {
    if 0 <= step && step + 1 < commands.len() {
        match check_spec(commands[step], status) {
            Ok(_) => Ok(None),
            Err(e) => Err(e),
        }
    } else {
        Ok(Some(status == Some(0i32)))
    }
}

/// An answer that may be missing, or an error taken by its view.
pub open spec fn verdict_view(r: Result<Option<bool>, Error>) -> Result<Option<bool>, ErrorView> {
    match r {
        Ok(answer) => Ok(answer),
        Err(e) => Err(e@),
    }
}

/// A text that may be missing, or an error, by their views.
pub open spec fn opt_text_result_view(r: Result<Option<String>, Error>) -> Result<
    Option<Seq<char>>,
    ErrorView,
> {
    match r {
        Ok(text) => Ok(opt_view(text)),
        Err(e) => Err(e@),
    }
}

/// A text or an error, both as sequences of characters.
pub open spec fn text_result_view(r: Result<String, Error>) -> Result<Seq<char>, ErrorView> {
    match r {
        Ok(text) => Ok(text@),
        Err(e) => Err(e@),
    }
}

fn run_in(program: &str, args: Vec<String>, dir: Option<&str>, silent: bool) -> (command: Invocation)
    ensures
        command@ == (InvocationView {
            program: program@,
            args: views(args@),
            dir: match dir {
                Some(d) => Some(d@),
                None => None,
            },
            silent,
        }),
{
    let dir = match dir {
        Some(d) => Some(String::from_str(d)),
        None => None,
    };
    Invocation { program: String::from_str(program), args, dir, silent }
}

/// The file name at the end of the URL that was parsed into `parts`.
pub fn filename_from_parts(url_str: &str, parts: &Option<UrlParts>) -> (name: Result<String, Error>)
    ensures
        text_result_view(name) == filename_spec(url_str@, parts_view(*parts)),
{
    match parts {
        Some(p) => match p.filename() {
            Some(name) => Ok(name.clone()),
            None => Err(invalid_url(url_str)),
        },
        None => Err(invalid_url(url_str)),
    }
}

/// The file name at the end of a URL: the last segment of its path.
pub fn get_filename_from_url(url_str: &str) -> (name: Result<String, Error>)
    ensures
        text_result_view(name) == filename_spec(url_str@, url_parts(url_str@)),
{
    let parts = parse_url(url_str);
    filename_from_parts(url_str, &parts)
}

/// The branch that a URL names: its fragment, where it has one.
pub fn get_branch_from_url(url_str: &str) -> (branch: Result<Option<String>, Error>)
    ensures
        match url_parts(url_str@) {
            Some(p) => branch is Ok && opt_view(branch->Ok_0) == p.fragment,
            None => branch is Err && branch->Err_0@ == (ErrorView::InvalidUrl { url: url_str@ }),
        },
{
    match parse_url(url_str) {
        Some(p) => Ok(p.fragment),
        None => Err(invalid_url(url_str)),
    }
}

/// A URL written out without its fragment.
pub fn strip_branch_from_url(url_str: &str) -> (url: Result<String, Error>)
    ensures
        text_result_view(url) == match url_parts(url_str@) {
            Some(p) => Ok(p.without_fragment),
            None => Err(ErrorView::InvalidUrl { url: url_str@ }),
        },
{
    match parse_url(url_str) {
        Some(p) => Ok(p.without_fragment),
        None => Err(invalid_url(url_str)),
    }
}

impl Resource {
    /// The URL of the resource.
    pub fn url(&self) -> (url: &String)
        ensures
            url@ == url_of(self@),
    {
        match self {
            Resource::Svn { url } => url,
            Resource::Git { url, .. } => url,
            Resource::Tar { url } => url,
        }
    }

    /// The commands that ask git, inside the scratch directory `dir`,
    /// whether it can list the remote at `url_str`. The answer is a failure
    /// of the last command only: the first two do not leave the machine.
    pub fn probe_commands(url_str: &str, dir: &str) -> (commands: Vec<Invocation>)
        ensures
            command_views(commands@) == probe_commands_spec(url_str@, dir@),
    {
        let mut init: Vec<String> = Vec::new();
        push_text(&mut init, "init");
        let mut add: Vec<String> = Vec::new();
        push_text(&mut add, "remote");
        push_text(&mut add, "add");
        push_text(&mut add, "origin");
        push_text(&mut add, url_str);
        let mut list: Vec<String> = Vec::new();
        push_text(&mut list, "ls-remote");
        assert(views(init@) =~= seq!["init"@]);
        assert(views(add@) =~= seq!["remote"@, "add"@, "origin"@, url_str@]);
        assert(views(list@) =~= seq!["ls-remote"@]);
        let mut commands: Vec<Invocation> = Vec::new();
        commands.push(run_in("git", init, Some(dir), true));
        commands.push(run_in("git", add, Some(dir), true));
        commands.push(run_in("git", list, Some(dir), true));
        assert(command_views(commands@) =~= probe_commands_spec(url_str@, dir@));
        commands
    }

    /// Judges the end of the command at place `step` among the `commands`
    /// that ask git: `Ok(None)` to go on with the next command, `Ok(Some(_))`
    /// with the answer. `status` is the command's exit code, `None` where it
    /// did not run to its end.
    pub fn probe_verdict(commands: &Vec<Invocation>, step: usize, status: Option<i32>) -> (verdict:
        Result<Option<bool>, Error>)
        ensures
            verdict_view(verdict) == probe_verdict_spec(
                command_views(commands@),
                step as int,
                status,
            ),
    {
        if step < commands.len() && step + 1 < commands.len() {
            match commands[step].check(status) {
                Ok(_) => Ok(None),
                Err(e) => Err(e),
            }
        } else {
            let listed = match status {
                Some(code) => code == 0,
                None => false,
            };
            Ok(Some(listed))
        }
    }

    /// Plans the fetch of the resource to `dest`, given what parsing made of
    /// the resource's URL.
    pub fn download_parsed(
        &self,
        parts: &Option<UrlParts>,
        dest: &str,
        tool_name: String,
        cache_dir: &str,
        state: DirState,
        cached: bool,
        when_occupied: WhenOccupied,
    ) -> (plan: Result<Fetch, Error>)
        ensures
            result_view(plan) == download_spec(
                self@,
                parts_view(*parts),
                dest@,
                tool_name@,
                cache_dir@,
                state,
                cached,
                when_occupied,
            ),
    {
        let (create_dir, occupied) = match state {
            DirState::Missing => (true, false),
            DirState::Empty => (false, false),
            DirState::Occupied => (false, true),
            DirState::NotADirectory => {
                return Err(Error::NotADirectory { path: String::from_str(dest) });
            },
        };
        let skip = occupied && match when_occupied {
            WhenOccupied::Skip => true,
            WhenOccupied::Attempt => false,
        };
        let work = match self {
            Resource::Svn { url } => {
                if skip {
                    Work::Nothing
                } else {
                    let mut args: Vec<String> = Vec::new();
                    push_text(&mut args, "co");
                    push_text(&mut args, url.as_str());
                    push_text(&mut args, "-r");
                    push_text(&mut args, "HEAD");
                    push_text(&mut args, dest);
                    assert(views(args@) =~= seq!["co"@, url@, "-r"@, "HEAD"@, dest@]);
                    Work::Run(run_in("svn", args, None, false))
                }
            },
            Resource::Git { url, branch } => {
                if skip {
                    Work::Nothing
                } else {
                    let mut args: Vec<String> = Vec::new();
                    push_text(&mut args, "clone");
                    push_text(&mut args, url.as_str());
                    push_text(&mut args, "-q");
                    push_text(&mut args, "--depth");
                    push_text(&mut args, "1");
                    push_text(&mut args, dest);
                    assert(views(args@) =~= seq!["clone"@, url@, "-q"@, "--depth"@, "1"@, dest@]);
                    match branch {
                        Some(b) => {
                            push_text(&mut args, "-b");
                            push_text(&mut args, b.as_str());
                            assert(views(args@) =~= seq![
                                "clone"@,
                                url@,
                                "-q"@,
                                "--depth"@,
                                "1"@,
                                dest@,
                            ] + seq!["-b"@, b@]);
                        },
                        None => {
                            assert(views(args@) =~= seq![
                                "clone"@,
                                url@,
                                "-q"@,
                                "--depth"@,
                                "1"@,
                                dest@,
                            ] + Seq::<Seq<char>>::empty());
                        },
                    }
                    Work::Run(run_in("git", args, None, false))
                }
            },
            Resource::Tar { url } => {
                let name = match filename_from_parts(url.as_str(), parts) {
                    Ok(name) => name,
                    Err(e) => {
                        return Err(e);
                    },
                };
                let cache = join_path(cache_dir, ARCHIVE_CACHE);
                let archive = join_path(cache.as_str(), name.as_str());
                Work::Unpack { url: url.clone(), cache, archive, tool_name, download: !cached }
            },
        };
        Ok(Fetch { create_dir, work })
    }

    /// Plans the fetch of the resource to the directory `dest`.
    ///
    /// `state` says what stands at `dest` now. Something that is no directory
    /// is refused with `NotADirectory`; a missing directory is to be made
    /// first. A repository is checked out with its client, unless `dest`
    /// holds files already and `when_occupied` says to leave them. An archive
    /// is kept in the directory `cache` of `cache_dir` under the file name at
    /// the end of its URL, downloaded unless `cached` says that the file is
    /// there, and unpacked below `tool_name` in `dest`; a URL without such a
    /// name is refused with `InvalidUrl`.
    pub fn download(
        &self,
        dest: &str,
        tool_name: String,
        cache_dir: &str,
        state: DirState,
        cached: bool,
        when_occupied: WhenOccupied,
    ) -> (plan: Result<Fetch, Error>)
        ensures
            result_view(plan) == download_spec(
                self@,
                url_parts(url_of(self@)),
                dest@,
                tool_name@,
                cache_dir@,
                state,
                cached,
                when_occupied,
            ),
    {
        let parts = parse_url(self.url().as_str());
        self.download_parsed(&parts, dest, tool_name, cache_dir, state, cached, when_occupied)
    }

    /// The file that keeps the archive of the resource, given what parsing
    /// made of the resource's URL.
    pub fn archive_file_parsed(&self, parts: &Option<UrlParts>, cache_dir: &str) -> (file: Result<
        Option<String>,
        Error,
    >)
        ensures
            opt_text_result_view(file) == archive_file_spec(self@, parts_view(*parts), cache_dir@),
    {
        match self {
            Resource::Tar { url } => {
                let name = match filename_from_parts(url.as_str(), parts) {
                    Ok(name) => name,
                    Err(e) => {
                        return Err(e);
                    },
                };
                let cache = join_path(cache_dir, ARCHIVE_CACHE);
                Ok(Some(join_path(cache.as_str(), name.as_str())))
            },
            _ => Ok(None),
        }
    }

    /// The file that keeps the archive of the resource once it has been
    /// downloaded, for the caller to look for before it plans the fetch.
    pub fn archive_file(&self, cache_dir: &str) -> (file: Result<Option<String>, Error>)
        ensures
            opt_text_result_view(file) == archive_file_spec(
                self@,
                url_parts(url_of(self@)),
                cache_dir@,
            ),
    {
        let parts = parse_url(self.url().as_str());
        self.archive_file_parsed(&parts, cache_dir)
    }

    /// The command that brings the tree fetched to `dest` up to date.
    pub fn update(&self, dest: &str) -> (command: Option<Invocation>)
        ensures
            opt_command_view(command) == update_spec(self@, dest@),
    {
        match self {
            Resource::Svn { .. } => {
                let mut args: Vec<String> = Vec::new();
                push_text(&mut args, "update");
                assert(views(args@) =~= seq!["update"@]);
                Some(run_in("svn", args, Some(dest), false))
            },
            Resource::Git { .. } => {
                let mut args: Vec<String> = Vec::new();
                push_text(&mut args, "pull");
                assert(views(args@) =~= seq!["pull"@]);
                Some(run_in("git", args, Some(dest), false))
            },
            Resource::Tar { .. } => None,
        }
    }
}

/// A name that ends in `.git` ends neither like an archive nor in `trunk`.
proof fn lemma_git_suffix_alone(name: Seq<char>)
    requires
        ends_with(name, ".git"@),
    ensures
        !is_archive_name(name),
        !ends_with(name, "trunk"@),
{
    reveal_strlit(".git");
    reveal_strlit(".tar.gz");
    reveal_strlit(".tar.xz");
    reveal_strlit(".tar.bz2");
    reveal_strlit(".tar.Z");
    reveal_strlit(".tgz");
    reveal_strlit(".taz");
    reveal_strlit("trunk");
    let n = name.len() as int;
    assert(name.subrange(n - 4, n)[3] == 't');
    assert(name[n - 1] == 't');
    if ends_with(name, ".tar.gz"@) {
        assert(name.subrange(n - 7, n)[6] == 'z');
    }
    if ends_with(name, ".tar.xz"@) {
        assert(name.subrange(n - 7, n)[6] == 'z');
    }
    if ends_with(name, ".tar.bz2"@) {
        assert(name.subrange(n - 8, n)[7] == '2');
    }
    if ends_with(name, ".tar.Z"@) {
        assert(name.subrange(n - 6, n)[5] == 'Z');
    }
    if ends_with(name, ".tgz"@) {
        assert(name.subrange(n - 4, n)[3] == 'z');
    }
    if ends_with(name, ".taz"@) {
        assert(name.subrange(n - 4, n)[3] == 'z');
    }
    if ends_with(name, "trunk"@) {
        assert(name.subrange(n - 5, n)[4] == 'k');
    }
}

/// A URL whose file name ends like an archive's is an archive, kept under
/// the URL as it was given, whatever its host and whatever git would say.
pub proof fn lemma_archive_by_name(url: Seq<char>, parts: UrlPartsView, git_access: bool)
    requires
        filename(Some(parts)) is Some,
        is_archive_name(filename(Some(parts))->0),
    ensures
        resolve_spec(url, Some(parts), git_access) == Ok::<ResourceView, ErrorView>(
            ResourceView::Tar { url },
        ),
{
}

/// A URL whose file name ends in `.git` is a Git repository: its fragment,
/// if it has one, is the branch, and the URL is kept without the fragment.
pub proof fn lemma_git_by_name(url: Seq<char>, parts: UrlPartsView, git_access: bool)
    requires
        filename(Some(parts)) is Some,
        ends_with(filename(Some(parts))->0, ".git"@),
    ensures
        resolve_spec(url, Some(parts), git_access) == Ok::<ResourceView, ErrorView>(
            ResourceView::Git { url: parts.without_fragment, branch: parts.fragment },
        ),
{
    lemma_git_suffix_alone(filename(Some(parts))->0);
}

/// A URL on a host that serves Git repositories, without a fragment and
/// with a file name that ends neither like an archive nor in `trunk`, is a
/// Git repository without a branch.
pub proof fn lemma_git_by_host(url: Seq<char>, parts: UrlPartsView, git_access: bool)
    requires
        is_git_service(parts.host),
        parts.fragment is None,
        filename(Some(parts)) is Some ==> !is_archive_name(filename(Some(parts))->0) && !ends_with(
            filename(Some(parts))->0,
            "trunk"@,
        ),
    ensures
        resolve_spec(url, Some(parts), git_access) == Ok::<ResourceView, ErrorView>(
            ResourceView::Git { url: parts.without_fragment, branch: None },
        ),
{
}

/// A text that is no URL names no resource: it is refused as invalid,
/// whatever git would say.
pub proof fn lemma_malformed_refused(url: Seq<char>, git_access: bool)
    ensures
        resolve_spec(url, None, git_access) == Err::<ResourceView, ErrorView>(
            ErrorView::InvalidUrl { url },
        ),
        detect_spec(url, None) == Err::<DetectionView, ErrorView>(ErrorView::InvalidUrl { url }),
{
}

/// Where the shape of a URL decides, asking git changes nothing.
pub proof fn lemma_probe_unread(url: Seq<char>, parts: Option<UrlPartsView>)
    requires
        detect_spec(url, parts) != Ok::<DetectionView, ErrorView>(DetectionView::Unknown),
    ensures
        resolve_spec(url, parts, true) == resolve_spec(url, parts, false),
{
}

/// A repository whose destination holds files already is left alone where
/// the caller says so: no command is run that could fail on them. An
/// archive is unpacked all the same, for unpacking passes over what exists.
pub proof fn lemma_occupied_is_skipped(
    resource: ResourceView,
    parts: Option<UrlPartsView>,
    dest: Seq<char>,
    tool_name: Seq<char>,
    cache_dir: Seq<char>,
    cached: bool,
)
    ensures
        match download_spec(
            resource,
            parts,
            dest,
            tool_name,
            cache_dir,
            DirState::Occupied,
            cached,
            WhenOccupied::Skip,
        ) {
            Ok(plan) => !plan.create_dir && !(plan.work is Run),
            Err(e) => resource is Tar && e == (ErrorView::InvalidUrl { url: url_of(resource) }),
        },
{
}

/// What fails for a resource and a directory fails whatever the directory
/// holds, and what is planned once is planned again: the state of the
/// destination decides only between making it, using it and refusing what
/// is no directory.
pub proof fn lemma_fetch_again(
    resource: ResourceView,
    parts: Option<UrlPartsView>,
    dest: Seq<char>,
    tool_name: Seq<char>,
    cache_dir: Seq<char>,
    state: DirState,
    cached: bool,
    when_occupied: WhenOccupied,
)
    requires
        !(state is NotADirectory),
        download_spec(resource, parts, dest, tool_name, cache_dir, state, cached, when_occupied) is Ok,
    ensures
        download_spec(
            resource,
            parts,
            dest,
            tool_name,
            cache_dir,
            DirState::Occupied,
            true,
            WhenOccupied::Skip,
        ) is Ok,
        download_spec(
            resource,
            parts,
            dest,
            tool_name,
            cache_dir,
            DirState::Occupied,
            true,
            WhenOccupied::Skip,
        )->Ok_0.work matches WorkView::Unpack { download, .. } ==> !download,
{
}

} // verus!
