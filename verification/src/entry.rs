//! Entries: what to build and how. An entry is declared by a name and a
//! setting, is remote or local by where its source comes from, and plans the
//! commands that fetch, configure and build it.

use vstd::prelude::*;
use vstd::string::*;
pub use crate::generator::{BuildType, CMakeGenerator};
use crate::command::{Invocation, InvocationView};
use crate::config::{join_path, path_join};
use crate::error::{result_view, Error, ErrorView};
use crate::generator::{build_type_name, generator_build_option, generator_option, generator_spec};
use crate::options::{as_map, ascending, lemma_same_map_same_order, Options, Pair};
use crate::resource::{
    archive_file_spec, detect_spec, download_spec, opt_command_view, opt_text_result_view,
    resolve_spec, update_spec, url_of, Detection, DetectionView, DirState, Fetch, FetchView,
    Resource, WhenOccupied, Work, WorkView,
};
use crate::text::{
    followed_by, join, joined, opt_view, push_text, same_text, starts_with, views,
};
use crate::weburl::url_parts;
use crate::version::{
    opt_version_view, parse_version, requirement_matches, semver_matches, semver_parse, triple_text,
    Version, VersionView,
};

verus! {

/// How an entry is declared: where its source comes from and how it is built.
#[derive(Debug, Clone, PartialEq, Eq)]
pub struct EntrySetting {
    /// The URL of a remote source.
    pub url: Option<String>,
    /// The path of a local source directory.
    pub path: Option<String>,
    /// The targets to build, such as "X86"; none means all of them.
    pub target: Vec<String>,
    /// The generator that CMake writes build files for.
    pub generator: CMakeGenerator,
    /// The value of `CMAKE_BUILD_TYPE`.
    pub build_type: BuildType,
    /// Further definitions passed on to CMake.
    pub option: Options,
}

/// An `EntrySetting` with its texts as sequences of characters.
pub struct SettingView {
    pub url: Option<Seq<char>>,
    pub path: Option<Seq<char>>,
    pub target: Seq<Seq<char>>,
    pub generator: CMakeGenerator,
    pub build_type: BuildType,
    pub option: Seq<Pair>,
}

impl View for EntrySetting {
    type V = SettingView;

    open spec fn view(&self) -> SettingView {
        SettingView {
            url: opt_view(self.url),
            path: opt_view(self.path),
            target: views(self.target@),
            generator: self.generator,
            build_type: self.build_type,
            option: self.option@,
        }
    }
}

/// The setting that declares nothing: no origin, all targets, the platform's
/// generator, a release build, no further definitions.
pub open spec fn default_setting() -> SettingView {
    SettingView {
        url: None,
        path: None,
        target: Seq::empty(),
        generator: CMakeGenerator::Platform,
        build_type: BuildType::Release,
        option: Seq::empty(),
    }
}

impl Default for EntrySetting {
    fn default() -> (setting: Self)
        ensures
            setting@ == default_setting(),
    {
        let setting = EntrySetting {
            url: None,
            path: None,
            target: Vec::new(),
            generator: CMakeGenerator::Platform,
            build_type: BuildType::Release,
            option: Options::new(),
        };
        assert(setting@.target =~= Seq::<Seq<char>>::empty());
        setting
    }
}

/// What to build: a named source, remote or local, with its setting.
#[derive(Debug, Clone, PartialEq, Eq)]
pub enum Entry {
    /// A source that is fetched from `url`.
    Remote { name: String, version: Option<Version>, url: String, setting: EntrySetting },
    /// A source that lies in the directory `path`.
    Local { name: String, version: Option<Version>, path: String, setting: EntrySetting },
}

/// An `Entry` with its texts as sequences of characters.
pub enum EntryView {
    Remote { name: Seq<char>, version: Option<VersionView>, url: Seq<char>, setting: SettingView },
    Local { name: Seq<char>, version: Option<VersionView>, path: Seq<char>, setting: SettingView },
}

impl View for Entry {
    type V = EntryView;

    open spec fn view(&self) -> EntryView {
        match *self {
            Entry::Remote { name, version, url, setting } => EntryView::Remote {
                name: name@,
                version: opt_version_view(version),
                url: url@,
                setting: setting@,
            },
            Entry::Local { name, version, path, setting } => EntryView::Local {
                name: name@,
                version: opt_version_view(version),
                path: path@,
                setting: setting@,
            },
        }
    }
}

impl EntryView {
    /// The name that the entry answers to.
    pub open spec fn name(self) -> Seq<char> {
        match self {
            EntryView::Remote { name, .. } => name,
            EntryView::Local { name, .. } => name,
        }
    }

    /// The version that the name writes, where it writes one.
    pub open spec fn version(self) -> Option<VersionView> {
        match self {
            EntryView::Remote { version, .. } => version,
            EntryView::Local { version, .. } => version,
        }
    }

    /// The setting of the entry.
    pub open spec fn setting(self) -> SettingView {
        match self {
            EntryView::Remote { setting, .. } => setting,
            EntryView::Local { setting, .. } => setting,
        }
    }

    /// The entry with another setting.
    pub open spec fn with_setting(self, setting: SettingView) -> EntryView {
        match self {
            EntryView::Remote { name, version, url, .. } => EntryView::Remote {
                name,
                version,
                url,
                setting,
            },
            EntryView::Local { name, version, path, .. } => EntryView::Local {
                name,
                version,
                path,
                setting,
            },
        }
    }

    /// The entry is remote or local by which origin its setting declares,
    /// and its setting declares one origin only.
    pub open spec fn wf(self) -> bool {
        match self {
            EntryView::Remote { url, setting, .. } => setting.url == Some(url) && setting.path is None,
            EntryView::Local { setting, .. } => setting.path is Some && setting.url is None,
        }
    }
}

/// The view of each entry of a sequence.
pub open spec fn entry_views(entries: Seq<Entry>) -> Seq<EntryView> {
    entries.map_values(|e: Entry| e@)
}

/// What shell expansion may make of `path`: a text without `$` is always
/// expanded, and one that neither holds `$` nor begins with `~` stays as it
/// is.
pub open spec fn may_expand_to(path: Seq<char>, expanded: Option<Seq<char>>) -> bool {
    &&& !path.contains('$') ==> expanded is Some
    &&& !path.contains('$') && !starts_with(path, seq!['~']) ==> expanded == Some(path)
}

/// Expands `~` and environment variables in `path` with `shellexpand::full`.
/// What comes back depends on the environment: `None` stands for a variable
/// that is not set. All that is claimed is what holds in every environment:
/// the function looks for `$` and for a leading `~` and returns a text
/// without them unchanged.
#[verifier::external_body]
pub(crate) fn expand_path(path: &str) -> (expanded: Option<String>)
    ensures
        may_expand_to(path@, opt_view(expanded)),
{
    shellexpand::full(path).ok().map(|p| p.into_owned())
}

/// Whether `program` is found on the path, asked of `which::which`. The
/// answer depends on the machine, so nothing is claimed of it.
#[verifier::external_body]
pub(crate) fn on_path(program: &str) -> (found: bool) {
    which::which(program).is_ok()
}

/// An `InvalidEntry` error.
pub open spec fn invalid_entry(name: Seq<char>, message: Seq<char>) -> ErrorView {
    ErrorView::InvalidEntry { name, message }
}

/// The entry that a name and a setting declare. `expanded` is what shell
/// expansion made of the setting's path; it is read only where the path is
/// the one origin. A setting with both origins or with none declares
/// nothing, and neither does a path that cannot be expanded.
pub open spec fn from_setting_spec(
    name: Seq<char>,
    version: Option<VersionView>,
    setting: SettingView,
    expanded: Option<Seq<char>>,
) -> Result<EntryView, ErrorView> {
    if setting.path is Some && setting.url is Some {
        Err(invalid_entry(name, "One of Path or URL are allowed"@))
    } else if setting.path is Some {
        match expanded {
            Some(path) => Ok(EntryView::Local { name, version, path, setting }),
            None => Err(invalid_entry(name, "Path cannot be expanded"@)),
        }
    } else if setting.url is Some {
        Ok(EntryView::Remote { name, version, url: setting.url->0, setting })
    } else {
        Err(invalid_entry(name, "Path nor URL are not found"@))
    }
}

/// `outcome` is what the name and the setting declare in some environment.
pub open spec fn declares(
    name: Seq<char>,
    version: Option<VersionView>,
    setting: SettingView,
    outcome: Result<EntryView, ErrorView>,
) -> bool {
    exists|expanded: Option<Seq<char>>|
        {
            &&& setting.path is Some ==> may_expand_to(setting.path->0, expanded)
            &&& outcome == #[trigger] from_setting_spec(name, version, setting, expanded)
        }
}

/// The URL of the archive of an official release.
pub open spec fn official_url(major: u64, minor: u64, patch: u64) -> Seq<char> {
    "https://github.com/llvm/llvm-project/archive/refs/tags/llvmorg-"@ + triple_text(
        major,
        minor,
        patch,
    ) + ".tar.gz"@
}

/// The entry of an official release: named by its version, fetched from the
/// release's archive, built with the default setting.
pub open spec fn official_spec(major: u64, minor: u64, patch: u64) -> EntryView {
    EntryView::Remote {
        name: triple_text(major, minor, patch),
        version: Some(
            VersionView { major, minor, patch, pre: Seq::empty(), build: Seq::empty() },
        ),
        url: official_url(major, minor, patch),
        setting: SettingView {
            url: Some(official_url(major, minor, patch)),
            path: None,
            target: Seq::empty(),
            generator: CMakeGenerator::Platform,
            build_type: BuildType::Release,
            option: Seq::empty(),
        },
    }
}

fn invalid(name: &str, message: &str) -> (e: Error)
    ensures
        e@ == invalid_entry(name@, message@),
{
    Error::InvalidEntry { name: String::from_str(name), message: String::from_str(message) }
}

impl Entry {
    /// The entry that `name` and `setting` declare, given what shell
    /// expansion made of the setting's path.
    pub fn from_setting(
        name: &str,
        version: Option<Version>,
        setting: EntrySetting,
        expanded: Option<String>,
    ) -> (entry: Result<Entry, Error>)
        ensures
            result_view(entry) == from_setting_spec(
                name@,
                opt_version_view(version),
                setting@,
                opt_view(expanded),
            ),
            entry is Ok ==> entry->Ok_0@.wf(),
    {
        if setting.path.is_some() && setting.url.is_some() {
            return Err(invalid(name, "One of Path or URL are allowed"));
        }
        if setting.path.is_some() {
            return match expanded {
                Some(path) => Ok(Entry::Local { name: String::from_str(name), version, path, setting }),
                None => Err(invalid(name, "Path cannot be expanded")),
            };
        }
        let url = match &setting.url {
            Some(url) => url.clone(),
            None => {
                return Err(invalid(name, "Path nor URL are not found"));
            },
        };
        Ok(Entry::Remote { name: String::from_str(name), version, url, setting })
    }

    /// The entry that `name` and `setting` declare. A setting declares a
    /// local entry by its `path`, in which `~` and environment variables are
    /// expanded, and a remote entry by its `url`. It has to declare one of
    /// the two and not both.
    pub fn parse_setting(name: &str, version: Option<Version>, setting: EntrySetting) -> (entry:
        Result<Entry, Error>)
        ensures
            declares(name@, opt_version_view(version), setting@, result_view(entry)),
            entry is Ok ==> entry->Ok_0@.wf(),
    {
        let expanded = match &setting.path {
            Some(path) => expand_path(path.as_str()),
            None => None,
        };
        let ghost seen = opt_view(expanded);
        let entry = Entry::from_setting(name, version, setting, expanded);
        assert(result_view(entry) == from_setting_spec(
            name@,
            opt_version_view(version),
            setting@,
            seen,
        ));
        entry
    }

    /// The entry of the official release with this version.
    pub fn official(major: u64, minor: u64, patch: u64) -> (entry: Entry)
        ensures
            entry@ == official_spec(major, minor, patch),
    {
        let version = Version::new(major, minor, patch);
        let name = version.to_string();
        assert(name@ =~= triple_text(major, minor, patch));
        let mut url = followed_by(
            "https://github.com/llvm/llvm-project/archive/refs/tags/llvmorg-",
            name.as_str(),
        );
        url.append(".tar.gz");
        let mut setting = EntrySetting::default();
        setting.url = Some(url.clone());
        Entry::Remote { name, version: Some(version), url, setting }
    }
}

/// The versions of the official releases, newest first.
pub open spec fn releases() -> Seq<(u64, u64, u64)> {
    seq![
        (18, 1, 0),
        (17, 0, 2),
        (17, 0, 0),
        (16, 0, 6),
        (16, 0, 0),
        (15, 0, 7),
        (15, 0, 0),
        (14, 0, 6),
        (14, 0, 0),
        (13, 0, 0),
        (12, 0, 1),
        (12, 0, 0),
        (11, 1, 0),
        (11, 0, 0),
        (10, 0, 1),
        (10, 0, 0),
    ]
}

/// The entries of the official releases, newest first.
pub open spec fn official_entries() -> Seq<EntryView> {
    releases().map_values(|v: (u64, u64, u64)| official_spec(v.0, v.1, v.2))
}

/// The entries of the official releases, newest first.
pub fn official_releases() -> (entries: Vec<Entry>)
    ensures
        entry_views(entries@) == official_entries(),
{
    let mut entries: Vec<Entry> = Vec::new();
    entries.push(Entry::official(18, 1, 0));
    entries.push(Entry::official(17, 0, 2));
    entries.push(Entry::official(17, 0, 0));
    entries.push(Entry::official(16, 0, 6));
    entries.push(Entry::official(16, 0, 0));
    entries.push(Entry::official(15, 0, 7));
    entries.push(Entry::official(15, 0, 0));
    entries.push(Entry::official(14, 0, 6));
    entries.push(Entry::official(14, 0, 0));
    entries.push(Entry::official(13, 0, 0));
    entries.push(Entry::official(12, 0, 1));
    entries.push(Entry::official(12, 0, 0));
    entries.push(Entry::official(11, 1, 0));
    entries.push(Entry::official(11, 0, 0));
    entries.push(Entry::official(10, 0, 1));
    entries.push(Entry::official(10, 0, 0));
    assert(entry_views(entries@) =~= official_entries());
    entries
}

/// The name and the setting of a section, as sequences of characters.
pub open spec fn section_view(section: (String, EntrySetting)) -> (Seq<char>, SettingView) {
    (section.0@, section.1@)
}

/// The view of each section of a sequence.
pub open spec fn section_views(sections: Seq<(String, EntrySetting)>) -> Seq<(Seq<char>, SettingView)> {
    sections.map_values(|s: (String, EntrySetting)| section_view(s))
}

/// `outcome` is what a section of the entries' file declares in some
/// environment. The version of the entry is the one that its name writes.
pub open spec fn section_declares(
    section: (Seq<char>, SettingView),
    outcome: Result<EntryView, ErrorView>,
) -> bool {
    declares(section.0, semver_parse(section.0), section.1, outcome)
}

/// `entries` are what the sections declare, one entry for each section in
/// order, followed by the official releases.
pub open spec fn loaded_from(sections: Seq<(Seq<char>, SettingView)>, entries: Seq<EntryView>) -> bool {
    &&& entries.len() == sections.len() + official_entries().len()
    &&& forall|i: int|
        0 <= i < sections.len() ==> section_declares(#[trigger] sections[i], Ok(entries[i]))
    &&& forall|i: int|
        0 <= i < official_entries().len() ==> entries[sections.len() + i]
            == #[trigger] official_entries()[i]
}

/// The section declares an entry in some environment.
pub open spec fn declares_entry(section: (Seq<char>, SettingView)) -> bool {
    exists|entry: EntryView| #[trigger] section_declares(section, Ok(entry))
}

/// `e` is the error of the first section that declares no entry.
pub open spec fn refused_by(sections: Seq<(Seq<char>, SettingView)>, e: ErrorView) -> bool {
    exists|i: int|
        {
            &&& 0 <= i < sections.len()
            &&& section_declares(#[trigger] sections[i], Err(e))
            &&& forall|j: int| 0 <= j < i ==> declares_entry(#[trigger] sections[j])
        }
}

/// The entries to choose from: those that the sections of the entries' file
/// declare, in the order of the sections, followed by the official releases.
/// The first section that declares no entry makes the whole load fail.
pub fn load_entries(sections: Vec<(String, EntrySetting)>) -> (loaded: Result<Vec<Entry>, Error>)
    ensures
        match loaded {
            Ok(entries) => loaded_from(section_views(sections@), entry_views(entries@)),
            Err(e) => refused_by(section_views(sections@), e@),
        },
        loaded is Ok ==> forall|i: int|
            0 <= i < loaded->Ok_0@.len() ==> (#[trigger] entry_views(loaded->Ok_0@)[i]).wf(),
{
    let ghost all = section_views(sections@);
    let mut rest = sections;
    let mut entries: Vec<Entry> = Vec::new();
    while rest.len() > 0
        invariant
            all == section_views(sections@),
            entries.len() + rest.len() == sections.len(),
            section_views(rest@) == all.skip(entries.len() as int),
            forall|i: int|
                0 <= i < entries.len() ==> section_declares(
                    #[trigger] all[i],
                    Ok(entry_views(entries@)[i]),
                ),
            forall|i: int| 0 <= i < entries.len() ==> (#[trigger] entry_views(entries@)[i]).wf(),
        decreases rest.len(),
    {
        let ghost done = entries.len() as int;
        let ghost before = entries@;
        let ghost queue = rest@;
        let (name, setting) = rest.remove(0);
        assert(section_view(queue[0]) == all.skip(done)[0]);
        assert((name@, setting@) == all[done]);
        assert(section_views(rest@) =~= all.skip(done + 1)) by {
            assert forall|k: int| 0 <= k < rest@.len() implies section_views(rest@)[k] == all.skip(
                done + 1,
            )[k] by {
                assert(rest@[k] == queue[k + 1]);
                assert(section_view(queue[k + 1]) == all.skip(done)[k + 1]);
            }
        }
        let version = parse_version(name.as_str());
        let ghost declared_by = all[done];
        let parsed = Entry::parse_setting(name.as_str(), version, setting);
        assert(section_declares(declared_by, result_view(parsed)));
        match parsed {
            Ok(entry) => {
                entries.push(entry);
                assert forall|i: int| 0 <= i < entries.len() implies section_declares(
                    #[trigger] all[i],
                    Ok(entry_views(entries@)[i]),
                ) by {
                    if i < done {
                        assert(entry_views(entries@)[i] == entry_views(before)[i]);
                    }
                }
                assert forall|i: int| 0 <= i < entries.len() implies (#[trigger] entry_views(
                    entries@,
                )[i]).wf() by {
                    if i < done {
                        assert(entry_views(entries@)[i] == entry_views(before)[i]);
                    }
                }
            },
            Err(e) => {
                assert(section_declares(all[done], Err(e@)));
                assert forall|j: int| 0 <= j < done implies declares_entry(#[trigger] all[j]) by {
                    assert(section_declares(all[j], Ok(entry_views(entries@)[j])));
                }
                return Err(e);
            },
        }
    }
    let ghost declared = entries@;
    let mut official = official_releases();
    let ghost released = official@;
    entries.append(&mut official);
    assert(entries@ =~= declared + released);
    assert forall|i: int| 0 <= i < all.len() implies section_declares(
        #[trigger] all[i],
        Ok(entry_views(entries@)[i]),
    ) by {
        assert(entry_views(entries@)[i] == entry_views(declared)[i]);
    }
    assert forall|i: int| 0 <= i < official_entries().len() implies entry_views(entries@)[all.len()
        + i] == #[trigger] official_entries()[i] by {
        assert(entries@[all.len() + i] == released[i]);
        assert(entry_views(released)[i] == official_entries()[i]);
    }
    assert forall|i: int| 0 <= i < entries@.len() implies (#[trigger] entry_views(entries@)[i]).wf() by {
        if i < all.len() {
            assert(entry_views(entries@)[i] == entry_views(declared)[i]);
        } else {
            assert(entry_views(entries@)[all.len() + (i - all.len())] == official_entries()[i
                - all.len()]);
        }
    }
    Ok(entries)
}

/// For each entry, whether it answers to `name`.
pub open spec fn name_flags(entries: Seq<EntryView>, name: Seq<char>) -> Seq<bool> {
    Seq::new(entries.len(), |i: int| entries[i].name() == name)
}

/// The entry has a version, and the version meets the requirement that
/// `req` writes.
pub open spec fn meets(req: Seq<char>, entry: EntryView) -> bool {
    match entry.version() {
        Some(v) => semver_matches(req, v) == Some(true),
        None => false,
    }
}

/// For each entry, whether its version meets the requirement that `req`
/// writes.
pub open spec fn version_flags(entries: Seq<EntryView>, req: Seq<char>) -> Seq<bool> {
    Seq::new(entries.len(), |i: int| meets(req, entries[i]))
}

/// `flags`, cut or filled up with `false` to the length `len`.
pub open spec fn flags_for(len: nat, flags: Seq<bool>) -> Seq<bool> {
    Seq::new(len, |i: int| i < flags.len() && flags[i])
}

/// `i` is the first place at which `flags` is set.
pub open spec fn is_first(flags: Seq<bool>, i: int) -> bool {
    &&& 0 <= i < flags.len()
    &&& flags[i]
    &&& forall|j: int| 0 <= j < i ==> !flags[j]
}

/// `flags` is set nowhere.
pub open spec fn none_set(flags: Seq<bool>) -> bool {
    forall|j: int| 0 <= j < flags.len() ==> !flags[j]
}

/// `found` is the place of the entry to take: the first that answers to the
/// name; where none does, the first whose version meets the requirement;
/// and nothing where none does either.
pub open spec fn selects(by_name: Seq<bool>, by_version: Seq<bool>, found: Option<int>) -> bool {
    match found {
        Some(i) => is_first(by_name, i) || (none_set(by_name) && is_first(by_version, i)),
        None => none_set(by_name) && none_set(by_version),
    }
}

/// A place in a sequence, as a number without bounds.
pub open spec fn place(found: Option<usize>) -> Option<int> {
    match found {
        Some(i) => Some(i as int),
        None => None,
    }
}

/// The error for a name that no entry answers to.
pub open spec fn not_found(name: Seq<char>) -> ErrorView {
    invalid_entry(name, "Entry not found"@)
}

/// Picks the entry that `name` asks for. `satisfied` says of each entry
/// whether its version meets the requirement that `name` writes; it is read
/// only where no entry answers to `name` itself, and an entry that it does
/// not reach counts as one that does not meet the requirement.
pub fn find_entry(entries: &Vec<Entry>, name: &str, satisfied: &Vec<bool>) -> (found: Option<usize>)
    ensures
        selects(
            name_flags(entry_views(entries@), name@),
            flags_for(entries@.len(), satisfied@),
            place(found),
        ),
{
    let ghost by_name = name_flags(entry_views(entries@), name@);
    let ghost by_version = flags_for(entries@.len(), satisfied@);
    let mut i: usize = 0;
    while i < entries.len()
        invariant
            i <= entries.len(),
            by_name == name_flags(entry_views(entries@), name@),
            forall|j: int| 0 <= j < i ==> !by_name[j],
        decreases entries.len() - i,
    {
        if same_text(entries[i].name(), name) {
            return Some(i);
        }
        i += 1;
    }
    let mut i: usize = 0;
    while i < entries.len()
        invariant
            i <= entries.len(),
            by_name == name_flags(entry_views(entries@), name@),
            none_set(by_name),
            by_version == flags_for(entries@.len(), satisfied@),
            forall|j: int| 0 <= j < i ==> !by_version[j],
        decreases entries.len() - i,
    {
        if i < satisfied.len() && satisfied[i] {
            return Some(i);
        }
        i += 1;
    }
    None
}

/// The entry that `name` asks for among `entries`: the first whose name is
/// `name`; where there is none, the first with a version that meets the
/// requirement written by `name`. A name that finds no entry either way is
/// refused.
pub fn load_entry(entries: Vec<Entry>, name: &str) -> (loaded: Result<Entry, Error>)
    ensures
        match loaded {
            Ok(entry) => exists|i: int|
                {
                    &&& #[trigger] selects(
                        name_flags(entry_views(entries@), name@),
                        version_flags(entry_views(entries@), name@),
                        Some(i),
                    )
                    &&& entry@ == entries@[i]@
                },
            Err(e) => {
                &&& selects(
                    name_flags(entry_views(entries@), name@),
                    version_flags(entry_views(entries@), name@),
                    None,
                )
                &&& e@ == not_found(name@)
            },
        },
{
    let mut satisfied: Vec<bool> = Vec::new();
    let mut i: usize = 0;
    while i < entries.len()
        invariant
            i <= entries.len(),
            satisfied@ == version_flags(entry_views(entries@), name@).take(i as int),
        decreases entries.len() - i,
    {
        let matched = match entries[i].version() {
            Some(version) => match requirement_matches(name, version) {
                Some(matched) => matched,
                None => false,
            },
            None => false,
        };
        satisfied.push(matched);
        assert(satisfied@ =~= version_flags(entry_views(entries@), name@).take(i + 1));
        i += 1;
    }
    assert(flags_for(entries@.len(), satisfied@) =~= version_flags(entry_views(entries@), name@));
    match find_entry(&entries, name, &satisfied) {
        Some(i) => {
            let mut entries = entries;
            Ok(entries.remove(i))
        },
        None => Err(invalid(name, "Entry not found")),
    }
}

/// The directory that holds the source of an entry: for a remote entry the
/// directory of its name in the cache, for a local entry its path.
pub open spec fn src_dir_spec(entry: EntryView, cache_dir: Seq<char>) -> Seq<char> {
    match entry {
        EntryView::Remote { name, .. } => path_join(cache_dir, name),
        EntryView::Local { path, .. } => path,
    }
}

/// The directory that an entry is built in: `build` in its source directory.
pub open spec fn build_dir_spec(entry: EntryView, cache_dir: Seq<char>) -> Seq<char> {
    path_join(src_dir_spec(entry, cache_dir), "build"@)
}

/// The directory that an entry is installed to: that of its name among the
/// data.
pub open spec fn prefix_spec(entry: EntryView, data_dir: Seq<char>) -> Seq<char> {
    path_join(data_dir, entry.name())
}

/// A definition on CMake's command line.
pub open spec fn define(name: Seq<char>, value: Seq<char>) -> Seq<char> {
    "-D"@ + name + "="@ + value
}

/// One definition for each option, in the order of the options.
pub open spec fn option_defines(options: Seq<Pair>) -> Seq<Seq<char>> {
    options.map_values(|p: Pair| define(p.0, p.1))
}

/// The arguments with which CMake configures a build, in this order: the
/// generator, the source directory, where to install, the build type, the
/// definitions that turn on ccache and lld where they were found, the
/// targets where any are named, and the setting's own definitions in
/// dictionary order of their names.
pub open spec fn configure_args(
    setting: SettingView,
    src_dir: Seq<char>,
    prefix: Seq<char>,
    ccache: bool,
    lld: bool,
) -> Seq<Seq<char>> {
    generator_option(setting.generator) + seq![
        src_dir,
        define("CMAKE_INSTALL_PREFIX"@, prefix),
        define("CMAKE_BUILD_TYPE"@, build_type_name(setting.build_type)),
    ] + (if ccache {
        seq![define("LLVM_CCACHE_BUILD"@, "ON"@)]
    } else {
        Seq::empty()
    }) + (if lld {
        seq![define("LLVM_ENABLE_LLD"@, "ON"@)]
    } else {
        Seq::empty()
    }) + (if setting.target.len() > 0 {
        seq![define("LLVM_TARGETS_TO_BUILD"@, joined(setting.target, ";"@))]
    } else {
        Seq::empty()
    }) + option_defines(setting.option)
}

/// The command that configures the build of an entry, run in its build
/// directory.
pub open spec fn configure_spec(
    entry: EntryView,
    cache_dir: Seq<char>,
    data_dir: Seq<char>,
    ccache: bool,
    lld: bool,
) -> InvocationView {
    InvocationView {
        program: "cmake"@,
        args: configure_args(
            entry.setting(),
            src_dir_spec(entry, cache_dir),
            prefix_spec(entry, data_dir),
            ccache,
            lld,
        ),
        dir: Some(build_dir_spec(entry, cache_dir)),
        silent: false,
    }
}

/// The command that builds and installs an entry.
pub open spec fn build_spec(entry: EntryView, cache_dir: Seq<char>, nproc: usize) -> InvocationView {
    InvocationView {
        program: "cmake"@,
        args: seq!["--build"@, build_dir_spec(entry, cache_dir), "--target"@, "install"@]
            + generator_build_option(entry.setting().generator, nproc, entry.setting().build_type),
        dir: None,
        silent: false,
    }
}

fn define_text(name: &str, value: &str) -> (text: String)
    ensures
        text@ == define(name@, value@),
{
    let mut text = followed_by("-D", name);
    text.append("=");
    text.append(value);
    text
}

impl Entry {
    /// The name that the entry answers to.
    pub fn name(&self) -> (name: &str)
        ensures
            name@ == self@.name(),
    {
        match self {
            Entry::Remote { name, .. } => name.as_str(),
            Entry::Local { name, .. } => name.as_str(),
        }
    }

    /// The version that the entry's name writes, where it writes one.
    pub fn version(&self) -> (version: Option<&Version>)
        ensures
            match version {
                Some(v) => self@.version() == Some(v@),
                None => self@.version().is_none(),
            },
    {
        match self {
            Entry::Remote { version, .. } => version.as_ref(),
            Entry::Local { version, .. } => version.as_ref(),
        }
    }

    /// The setting of the entry.
    pub fn setting(&self) -> (setting: &EntrySetting)
        ensures
            setting@ == self@.setting(),
    {
        match self {
            Entry::Remote { setting, .. } => setting,
            Entry::Local { setting, .. } => setting,
        }
    }

    /// The directory that holds the source of the entry.
    pub fn src_dir(&self, cache_dir: &str) -> (dir: String)
        ensures
            dir@ == src_dir_spec(self@, cache_dir@),
    {
        match self {
            Entry::Remote { name, .. } => join_path(cache_dir, name.as_str()),
            Entry::Local { path, .. } => path.clone(),
        }
    }

    /// The directory that the entry is built in.
    pub fn build_dir(&self, cache_dir: &str) -> (dir: String)
        ensures
            dir@ == build_dir_spec(self@, cache_dir@),
    {
        join_path(self.src_dir(cache_dir).as_str(), "build")
    }

    /// The directory that the entry is installed to.
    pub fn prefix(&self, data_dir: &str) -> (dir: String)
        ensures
            dir@ == prefix_spec(self@, data_dir@),
    {
        join_path(data_dir, self.name())
    }

    /// The command that configures the build, given whether ccache and lld
    /// are at hand.
    pub fn configure_with(&self, cache_dir: &str, data_dir: &str, ccache: bool, lld: bool) -> (command:
        Invocation)
        ensures
            command@ == configure_spec(self@, cache_dir@, data_dir@, ccache, lld),
    {
        let setting = self.setting();
        let src_dir = self.src_dir(cache_dir);
        let prefix = self.prefix(data_dir);
        let mut args = setting.generator.option();
        push_text(&mut args, src_dir.as_str());
        push_text(&mut args, define_text("CMAKE_INSTALL_PREFIX", prefix.as_str()).as_str());
        push_text(&mut args, define_text("CMAKE_BUILD_TYPE", setting.build_type.name()).as_str());
        let ghost fixed = generator_option(setting.generator) + seq![
            src_dir@,
            define("CMAKE_INSTALL_PREFIX"@, prefix@),
            define("CMAKE_BUILD_TYPE"@, build_type_name(setting.build_type)),
        ];
        assert(views(args@) =~= fixed);
        if ccache {
            push_text(&mut args, define_text("LLVM_CCACHE_BUILD", "ON").as_str());
        }
        let ghost with_ccache = fixed + (if ccache {
            seq![define("LLVM_CCACHE_BUILD"@, "ON"@)]
        } else {
            Seq::empty()
        });
        assert(views(args@) =~= with_ccache);
        if lld {
            push_text(&mut args, define_text("LLVM_ENABLE_LLD", "ON").as_str());
        }
        let ghost with_lld = with_ccache + (if lld {
            seq![define("LLVM_ENABLE_LLD"@, "ON"@)]
        } else {
            Seq::empty()
        });
        assert(views(args@) =~= with_lld);
        if setting.target.len() > 0 {
            let targets = join(&setting.target, ";");
            push_text(&mut args, define_text("LLVM_TARGETS_TO_BUILD", targets.as_str()).as_str());
        }
        let ghost with_targets = with_lld + (if setting@.target.len() > 0 {
            seq![define("LLVM_TARGETS_TO_BUILD"@, joined(setting@.target, ";"@))]
        } else {
            Seq::empty()
        });
        assert(views(args@) =~= with_targets);
        let count: usize = setting.option.len();
        let mut i: usize = 0;
        while i < count
            invariant
                i <= count,
                count == setting.option@.len(),
                views(args@) == with_targets + option_defines(setting.option@).take(i as int),
            decreases count - i,
        {
            let text = define_text(setting.option.name(i).as_str(), setting.option.value(i).as_str());
            push_text(&mut args, text.as_str());
            assert(views(args@) =~= with_targets + option_defines(setting.option@).take(i + 1));
            i += 1;
        }
        assert(option_defines(setting.option@).take(count as int) =~= option_defines(
            setting.option@,
        ));
        Invocation {
            program: String::from_str("cmake"),
            args,
            dir: Some(self.build_dir(cache_dir)),
            silent: false,
        }
    }

    /// The command that configures the build. The definitions that turn on
    /// ccache and lld are passed where the two are found on the path; all
    /// else of the command is decided by the entry and the directories.
    pub fn configure(&self, cache_dir: &str, data_dir: &str) -> (command: Invocation)
        ensures
            exists|ccache: bool, lld: bool|
                command@ == #[trigger] configure_spec(self@, cache_dir@, data_dir@, ccache, lld),
    {
        let ccache = on_path("ccache");
        let lld = on_path("lld");
        let command = self.configure_with(cache_dir, data_dir, ccache, lld);
        assert(command@ == configure_spec(self@, cache_dir@, data_dir@, ccache, lld));
        command
    }

    /// The command that builds and installs the entry with `nproc` jobs at
    /// once.
    pub fn build_command(&self, cache_dir: &str, nproc: usize) -> (command: Invocation)
        ensures
            command@ == build_spec(self@, cache_dir@, nproc),
    {
        let setting = self.setting();
        let mut args: Vec<String> = Vec::new();
        push_text(&mut args, "--build");
        push_text(&mut args, self.build_dir(cache_dir).as_str());
        push_text(&mut args, "--target");
        push_text(&mut args, "install");
        let ghost fixed = seq!["--build"@, build_dir_spec(self@, cache_dir@), "--target"@, "install"@];
        assert(views(args@) =~= fixed);
        let mut more = setting.generator.build_option(nproc, setting.build_type);
        let ghost added = views(more@);
        let ghost before = args@;
        let ghost extra = more@;
        args.append(&mut more);
        assert(views(args@) =~= fixed + added) by {
            assert(args@ =~= before + extra);
        }
        Invocation { program: String::from_str("cmake"), args, dir: None, silent: false }
    }

    /// The commands that build the entry, to be run in turn: the first
    /// configures the build, the second builds and installs.
    pub fn build(&self, cache_dir: &str, data_dir: &str, nproc: usize) -> (commands: Vec<Invocation>)
        ensures
            commands@.len() == 2,
            exists|ccache: bool, lld: bool|
                commands@[0]@ == #[trigger] configure_spec(self@, cache_dir@, data_dir@, ccache, lld),
            commands@[1]@ == build_spec(self@, cache_dir@, nproc),
    {
        let mut commands: Vec<Invocation> = Vec::new();
        let configure = self.configure(cache_dir, data_dir);
        let ghost first = configure@;
        commands.push(configure);
        commands.push(self.build_command(cache_dir, nproc));
        assert(commands@[0]@ == first);
        commands
    }
}

/// The name of the directory, in an entry's source directory, that an
/// archive is unpacked to.
pub const TOOL_NAME: &'static str = "llvm";

/// The plan that fetches nothing.
pub open spec fn nothing_to_fetch() -> FetchView {
    FetchView { create_dir: false, work: WorkView::Nothing }
}

/// How to fetch the source of an entry: nothing for a local entry, whose
/// source is where it is; for a remote entry the fetch of the resource that
/// its URL names, to the entry's source directory.
pub open spec fn checkout_spec(
    entry: EntryView,
    cache_dir: Seq<char>,
    state: DirState,
    cached: bool,
    when_occupied: WhenOccupied,
    git_access: bool,
) -> Result<FetchView, ErrorView> {
    match entry {
        EntryView::Local { .. } => Ok(nothing_to_fetch()),
        EntryView::Remote { url, .. } => match resolve_spec(url, url_parts(url), git_access) {
            Ok(resource) => download_spec(
                resource,
                url_parts(url_of(resource)),
                src_dir_spec(entry, cache_dir),
                TOOL_NAME@,
                cache_dir,
                state,
                cached,
                when_occupied,
            ),
            Err(e) => Err(e),
        },
    }
}

/// The file that keeps the archive of an entry's source once downloaded:
/// none for a local entry, and none for a repository.
pub open spec fn entry_archive_spec(entry: EntryView, cache_dir: Seq<char>, git_access: bool) -> Result<
    Option<Seq<char>>,
    ErrorView,
> {
    match entry {
        EntryView::Local { .. } => Ok(None),
        EntryView::Remote { url, .. } => match resolve_spec(url, url_parts(url), git_access) {
            Ok(resource) => archive_file_spec(resource, url_parts(url_of(resource)), cache_dir),
            Err(e) => Err(e),
        },
    }
}

/// The directory to remove so that `dir` is gone: none where nothing stands
/// there, which is as good as removed. What is no directory is refused.
pub open spec fn clean_spec(dir: Seq<char>, state: DirState) -> Result<Option<Seq<char>>, ErrorView> {
    match state {
        DirState::Missing => Ok(None),
        DirState::NotADirectory => Err(ErrorView::NotADirectory { path: dir }),
        _ => Ok(Some(dir)),
    }
}

/// The command that brings the source of an entry up to date: none for a
/// local entry; for a remote entry that of the resource that its URL names.
pub open spec fn entry_update_spec(entry: EntryView, cache_dir: Seq<char>, git_access: bool) -> Result<
    Option<InvocationView>,
    ErrorView,
> {
    match entry {
        EntryView::Local { .. } => Ok(None),
        EntryView::Remote { url, .. } => match resolve_spec(url, url_parts(url), git_access) {
            Ok(resource) => Ok(update_spec(resource, src_dir_spec(entry, cache_dir))),
            Err(e) => Err(e),
        },
    }
}

/// Only asking the remote with git can tell what the entry's URL names.
pub open spec fn needs_probe_spec(entry: EntryView) -> bool {
    match entry {
        EntryView::Local { .. } => false,
        EntryView::Remote { url, .. } => detect_spec(url, url_parts(url)) == Ok::<
            DetectionView,
            ErrorView,
        >(DetectionView::Unknown),
    }
}

/// A command that may be missing, or an error, by their views.
pub open spec fn update_result_view(r: Result<Option<Invocation>, Error>) -> Result<
    Option<InvocationView>,
    ErrorView,
> {
    match r {
        Ok(command) => Ok(opt_command_view(command)),
        Err(e) => Err(e@),
    }
}

/// The setting with another generator.
pub open spec fn with_generator(setting: SettingView, generator: CMakeGenerator) -> SettingView {
    SettingView {
        url: setting.url,
        path: setting.path,
        target: setting.target,
        generator,
        build_type: setting.build_type,
        option: setting.option,
    }
}

/// The setting with another build type.
pub open spec fn with_build_type(setting: SettingView, build_type: BuildType) -> SettingView {
    SettingView {
        url: setting.url,
        path: setting.path,
        target: setting.target,
        generator: setting.generator,
        build_type,
        option: setting.option,
    }
}

fn clean(dir: String, state: DirState) -> (target: Result<Option<String>, Error>)
    ensures
        opt_text_result_view(target) == clean_spec(dir@, state),
{
    match state {
        DirState::Missing => Ok(None),
        DirState::NotADirectory => Err(Error::NotADirectory { path: dir }),
        _ => Ok(Some(dir)),
    }
}

impl Entry {
    /// Lets the entry be built with the generator that `generator` names.
    /// A text that names none is refused, and the entry stays as it is.
    pub fn set_builder(&mut self, generator: &str) -> (outcome: Result<(), Error>)
        ensures
            match generator_spec(generator@) {
                Ok(g) => outcome is Ok && final(self)@ == old(self)@.with_setting(
                    with_generator(old(self)@.setting(), g),
                ),
                Err(e) => outcome is Err && outcome->Err_0@ == e && final(self)@ == old(self)@,
            },
            old(self)@.wf() ==> final(self)@.wf(),
    {
        let generator = match CMakeGenerator::from_str(generator) {
            Ok(generator) => generator,
            Err(e) => {
                return Err(e);
            },
        };
        match self {
            Entry::Remote { setting, .. } => {
                setting.generator = generator;
            },
            Entry::Local { setting, .. } => {
                setting.generator = generator;
            },
        }
        Ok(())
    }

    /// Lets the entry be built as `build_type`. This cannot fail.
    pub fn set_build_type(&mut self, build_type: BuildType) -> (outcome: Result<(), Error>)
        ensures
            outcome is Ok,
            final(self)@ == old(self)@.with_setting(with_build_type(old(self)@.setting(), build_type)),
            old(self)@.wf() ==> final(self)@.wf(),
    {
        match self {
            Entry::Remote { setting, .. } => {
                setting.build_type = build_type;
            },
            Entry::Local { setting, .. } => {
                setting.build_type = build_type;
            },
        }
        Ok(())
    }

    /// Whether the kind of the entry's source is known only once git has
    /// been asked to list the remote. Where this is `false`, `checkout` and
    /// `update` do not read their `git_access`.
    pub fn needs_probe(&self) -> (needed: bool)
        ensures
            needed == needs_probe_spec(self@),
    {
        match self {
            Entry::Local { .. } => false,
            Entry::Remote { url, .. } => match Resource::detect(url.as_str()) {
                Ok(Detection::Unknown) => true,
                Ok(Detection::Known(_)) => false,
                Err(_) => false,
            },
        }
    }

    /// The file that keeps the archive of the entry's source once it has
    /// been downloaded, for the caller to look for before it plans the
    /// checkout. `git_access` says whether git could list the remote.
    pub fn archive_file(&self, cache_dir: &str, git_access: bool) -> (file: Result<
        Option<String>,
        Error,
    >)
        ensures
            opt_text_result_view(file) == entry_archive_spec(self@, cache_dir@, git_access),
    {
        match self {
            Entry::Local { .. } => Ok(None),
            Entry::Remote { url, .. } => {
                match Resource::from_url(url.as_str(), git_access) {
                    Ok(resource) => resource.archive_file(cache_dir),
                    Err(e) => Err(e),
                }
            },
        }
    }

    /// Plans the fetch of the entry's source. `state` says what stands at
    /// the entry's source directory now, `cached` whether the file that
    /// keeps the archive of the source is there, `when_occupied` what to do
    /// with a repository whose directory holds files already, and
    /// `git_access` whether git could list the remote.
    pub fn checkout(
        &self,
        cache_dir: &str,
        state: DirState,
        cached: bool,
        when_occupied: WhenOccupied,
        git_access: bool,
    ) -> (plan: Result<Fetch, Error>)
        ensures
            result_view(plan) == checkout_spec(
                self@,
                cache_dir@,
                state,
                cached,
                when_occupied,
                git_access,
            ),
    {
        match self {
            Entry::Local { .. } => Ok(Fetch { create_dir: false, work: Work::Nothing }),
            Entry::Remote { url, .. } => {
                let resource = match Resource::from_url(url.as_str(), git_access) {
                    Ok(resource) => resource,
                    Err(e) => {
                        return Err(e);
                    },
                };
                let dest = self.src_dir(cache_dir);
                resource.download(
                    dest.as_str(),
                    String::from_str(TOOL_NAME),
                    cache_dir,
                    state,
                    cached,
                    when_occupied,
                )
            },
        }
    }

    /// The source directory, where it is to be removed so that the entry's
    /// source is gone. `state` says what stands there now.
    pub fn clean_cache_dir(&self, cache_dir: &str, state: DirState) -> (dir: Result<
        Option<String>,
        Error,
    >)
        ensures
            opt_text_result_view(dir) == clean_spec(src_dir_spec(self@, cache_dir@), state),
    {
        clean(self.src_dir(cache_dir), state)
    }

    /// The build directory, where it is to be removed so that the entry is
    /// built afresh. `state` says what stands there now.
    pub fn clean_build_dir(&self, cache_dir: &str, state: DirState) -> (dir: Result<
        Option<String>,
        Error,
    >)
        ensures
            opt_text_result_view(dir) == clean_spec(build_dir_spec(self@, cache_dir@), state),
    {
        clean(self.build_dir(cache_dir), state)
    }

    /// The command that brings the entry's source up to date, where there
    /// is one to run. `git_access` says whether git could list the remote.
    pub fn update(&self, cache_dir: &str, git_access: bool) -> (command: Result<
        Option<Invocation>,
        Error,
    >)
        ensures
            update_result_view(command) == entry_update_spec(self@, cache_dir@, git_access),
    {
        match self {
            Entry::Local { .. } => Ok(None),
            Entry::Remote { url, .. } => {
                let resource = match Resource::from_url(url.as_str(), git_access) {
                    Ok(resource) => resource,
                    Err(e) => {
                        return Err(e);
                    },
                };
                let dest = self.src_dir(cache_dir);
                Ok(resource.update(dest.as_str()))
            },
        }
    }
}

/// A setting with both origins declares no entry, and neither does a
/// setting with none: either is refused as an invalid entry, in every
/// environment.
pub proof fn lemma_one_origin(
    name: Seq<char>,
    version: Option<VersionView>,
    setting: SettingView,
    outcome: Result<EntryView, ErrorView>,
)
    requires
        declares(name, version, setting, outcome),
        setting.path is Some == setting.url is Some,
    ensures
        outcome is Err,
        outcome->Err_0 is InvalidEntry,
        outcome->Err_0->InvalidEntry_name == name,
{
}

/// An entry that a setting declares is remote or local by the one origin
/// that the setting holds.
pub proof fn lemma_declared_by_origin(
    name: Seq<char>,
    version: Option<VersionView>,
    setting: SettingView,
    outcome: Result<EntryView, ErrorView>,
)
    requires
        declares(name, version, setting, outcome),
        outcome is Ok,
    ensures
        outcome->Ok_0.wf(),
        outcome->Ok_0.name() == name,
        outcome->Ok_0.setting() == setting,
        outcome->Ok_0 is Remote <==> setting.url is Some,
        outcome->Ok_0 is Local <==> setting.path is Some,
{
}

/// The arguments that configure a build do not depend on the order in
/// which the options of the setting were filled: two settings that agree in
/// all else, and whose options hold the same values under the same names,
/// give the same arguments.
pub proof fn lemma_configure_ignores_fill_order(
    a: SettingView,
    b: SettingView,
    src_dir: Seq<char>,
    prefix: Seq<char>,
    ccache: bool,
    lld: bool,
)
    requires
        a.target == b.target,
        a.generator == b.generator,
        a.build_type == b.build_type,
        ascending(a.option),
        ascending(b.option),
        as_map(a.option) == as_map(b.option),
    ensures
        configure_args(a, src_dir, prefix, ccache, lld) == configure_args(
            b,
            src_dir,
            prefix,
            ccache,
            lld,
        ),
{
    lemma_same_map_same_order(a.option, b.option);
}

/// Fetching the source of an entry a second time does not fail where the
/// first fetch was planned: once the source directory holds files, a
/// repository is left as it is and no command is run, and an archive is
/// unpacked over what is there.
pub proof fn lemma_checkout_again(
    entry: EntryView,
    cache_dir: Seq<char>,
    state: DirState,
    cached: bool,
    when_occupied: WhenOccupied,
    git_access: bool,
)
    requires
        !(state is NotADirectory),
        checkout_spec(entry, cache_dir, state, cached, when_occupied, git_access) is Ok,
    ensures
        ({
            let again = checkout_spec(
                entry,
                cache_dir,
                DirState::Occupied,
                true,
                WhenOccupied::Skip,
                git_access,
            );
            &&& again is Ok
            &&& !again->Ok_0.create_dir
            &&& !(again->Ok_0.work is Run)
            &&& again->Ok_0.work matches WorkView::Unpack { download, .. } ==> !download
        }),
{
}

} // verus!
