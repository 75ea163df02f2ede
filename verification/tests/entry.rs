use cargo_llvm::command::Invocation;
use cargo_llvm::entry::{
    find_entry, load_entries, load_entry, official_releases, BuildType, CMakeGenerator, Entry,
    EntrySetting,
};
use cargo_llvm::error::Error;
use cargo_llvm::options::Options;
use cargo_llvm::resource::{DirState, Fetch, WhenOccupied, Work};
use cargo_llvm::version::Version;

fn strings(items: &[&str]) -> Vec<String> {
    items.iter().map(|s| s.to_string()).collect()
}

fn remote(url: &str) -> EntrySetting {
    EntrySetting { url: Some(url.to_string()), ..EntrySetting::default() }
}

fn local(path: &str) -> EntrySetting {
    EntrySetting { path: Some(path.to_string()), ..EntrySetting::default() }
}

fn user_sections() -> Vec<(String, EntrySetting)> {
    vec![
        ("my-local-llvm".to_string(), EntrySetting { target: strings(&["X86"]), ..local("/path/to/your/src") }),
        ("llvm-mirror".to_string(), remote("https://github.com/llvm-mirror/llvm")),
        ("17.5.1".to_string(), remote("https://example.com/llvm-17.5.1.tar.gz")),
    ]
}

fn official_url(version: &str) -> String {
    format!("https://github.com/llvm/llvm-project/archive/refs/tags/llvmorg-{}.tar.gz", version)
}

#[test]
fn default_setting_declares_nothing() {
    let setting = EntrySetting::default();
    assert_eq!(setting.url, None);
    assert_eq!(setting.path, None);
    assert_eq!(setting.target, Vec::<String>::new());
    assert_eq!(setting.generator, CMakeGenerator::Platform);
    assert_eq!(setting.build_type, BuildType::Release);
    assert_eq!(setting.option, Options::new());
}

#[test]
fn setting_with_both_origins_is_invalid() {
    let setting = EntrySetting { path: Some("/src".into()), ..remote("https://example.com/x.git") };
    assert_eq!(
        Entry::parse_setting("both", None, setting),
        Err(Error::InvalidEntry { name: "both".into(), message: "One of Path or URL are allowed".into() })
    );
}

#[test]
fn setting_without_origin_is_invalid() {
    assert_eq!(
        Entry::parse_setting("neither", None, EntrySetting::default()),
        Err(Error::InvalidEntry { name: "neither".into(), message: "Path nor URL are not found".into() })
    );
}

#[test]
fn setting_with_url_declares_a_remote_entry() {
    let setting = EntrySetting { generator: CMakeGenerator::Ninja, ..remote("https://example.com/x.git") };
    assert_eq!(
        Entry::parse_setting("mine", Some(Version::new(1, 2, 3)), setting.clone()),
        Ok(Entry::Remote {
            name: "mine".into(),
            version: Some(Version::new(1, 2, 3)),
            url: "https://example.com/x.git".into(),
            setting,
        })
    );
}

#[test]
fn setting_with_path_declares_a_local_entry() {
    let setting = local("/path/to/your/src");
    assert_eq!(
        Entry::parse_setting("my-local-llvm", None, setting.clone()),
        Ok(Entry::Local {
            name: "my-local-llvm".into(),
            version: None,
            path: "/path/to/your/src".into(),
            setting,
        })
    );
}

#[test]
fn path_is_expanded_by_the_shell_rules() {
    let setting = local("/opt/a$$b");
    assert_eq!(
        Entry::parse_setting("escaped", None, setting.clone()),
        Ok(Entry::Local { name: "escaped".into(), version: None, path: "/opt/a$b".into(), setting })
    );
}

#[test]
fn path_with_an_unset_variable_is_invalid() {
    let setting = local("$CARGO_LLVM_NO_SUCH_VARIABLE_IS_SET/src");
    assert_eq!(
        Entry::parse_setting("lost", None, setting),
        Err(Error::InvalidEntry { name: "lost".into(), message: "Path cannot be expanded".into() })
    );
}

#[test]
fn from_setting_takes_the_expansion_it_is_given() {
    let setting = local("~/src");
    assert_eq!(
        Entry::from_setting("home", None, setting.clone(), Some("/home/me/src".into())),
        Ok(Entry::Local { name: "home".into(), version: None, path: "/home/me/src".into(), setting: setting.clone() })
    );
    assert_eq!(
        Entry::from_setting("home", None, setting, None),
        Err(Error::InvalidEntry { name: "home".into(), message: "Path cannot be expanded".into() })
    );
    let setting = remote("https://example.com/x.git");
    assert_eq!(
        Entry::from_setting("r", None, setting.clone(), None),
        Ok(Entry::Remote { name: "r".into(), version: None, url: "https://example.com/x.git".into(), setting })
    );
}

#[test]
fn official_entry_is_named_by_its_version() {
    let entry = Entry::official(18, 1, 0);
    assert_eq!(
        entry,
        Entry::Remote {
            name: "18.1.0".into(),
            version: Some(Version::new(18, 1, 0)),
            url: official_url("18.1.0"),
            setting: remote(&official_url("18.1.0")),
        }
    );
    assert_eq!(entry.name(), "18.1.0");
    assert_eq!(entry.version(), Some(&Version::new(18, 1, 0)));
    assert_eq!(entry.setting(), &remote(&official_url("18.1.0")));
}

#[test]
fn official_releases_are_listed_newest_first() {
    let names: Vec<String> = official_releases().iter().map(|e| e.name().to_string()).collect();
    assert_eq!(
        names,
        strings(&[
            "18.1.0", "17.0.2", "17.0.0", "16.0.6", "16.0.0", "15.0.7", "15.0.0", "14.0.6", "14.0.0",
            "13.0.0", "12.0.1", "12.0.0", "11.1.0", "11.0.0", "10.0.1", "10.0.0",
        ])
    );
    for entry in official_releases() {
        assert_eq!(entry.version().map(|v| v.to_string()), Some(entry.name().to_string()));
        match &entry {
            Entry::Remote { url, setting, .. } => {
                assert_eq!(url, &official_url(entry.name()));
                assert_eq!(setting, &remote(url));
            }
            Entry::Local { .. } => panic!("an official release is remote"),
        }
    }
}

#[test]
fn user_entries_come_before_the_official_ones() {
    let entries = load_entries(user_sections()).unwrap();
    assert_eq!(entries.len(), 3 + 16);
    assert_eq!(entries[0].name(), "my-local-llvm");
    assert_eq!(entries[0].version(), None);
    assert_eq!(entries[1].name(), "llvm-mirror");
    assert_eq!(entries[2].name(), "17.5.1");
    assert_eq!(entries[2].version(), Some(&Version::new(17, 5, 1)));
    assert_eq!(&entries[3..], &official_releases()[..]);
}

#[test]
fn version_is_read_from_the_name() {
    let sections = vec![
        ("1.2.3-rc.1+build.5".to_string(), remote("https://example.com/a.git")),
        ("1.2".to_string(), remote("https://example.com/b.git")),
        ("01.2.3".to_string(), remote("https://example.com/c.git")),
    ];
    let entries = load_entries(sections).unwrap();
    assert_eq!(
        entries[0].version(),
        Some(&Version { major: 1, minor: 2, patch: 3, pre: "rc.1".into(), build: "build.5".into() })
    );
    assert_eq!(entries[1].version(), None);
    assert_eq!(entries[2].version(), None);
}

#[test]
fn first_invalid_section_fails_the_load() {
    let sections = vec![
        ("good".to_string(), remote("https://example.com/a.git")),
        ("empty".to_string(), EntrySetting::default()),
        ("both".to_string(), EntrySetting { path: Some("/p".into()), ..remote("https://example.com/b.git") }),
    ];
    assert_eq!(
        load_entries(sections),
        Err(Error::InvalidEntry { name: "empty".into(), message: "Path nor URL are not found".into() })
    );
}

#[test]
fn without_user_entries_the_official_ones_remain() {
    assert_eq!(load_entries(vec![]), Ok(official_releases()));
}

#[test]
fn local_entry_is_found_by_name() {
    let entries = load_entries(user_sections()).unwrap();
    let entry = load_entry(entries, "my-local-llvm").unwrap();
    assert_eq!(
        entry,
        Entry::Local {
            name: "my-local-llvm".into(),
            version: None,
            path: "/path/to/your/src".into(),
            setting: EntrySetting { target: strings(&["X86"]), ..local("/path/to/your/src") },
        }
    );
}

#[test]
fn official_release_is_found_by_name() {
    let entries = load_entries(user_sections()).unwrap();
    assert_eq!(load_entry(entries, "18.1.0"), Ok(Entry::official(18, 1, 0)));
}

#[test]
fn exact_name_wins_over_an_earlier_version_match() {
    let entries = load_entries(vec![]).unwrap();
    assert_eq!(load_entry(entries, "17.0.0"), Ok(Entry::official(17, 0, 0)));
    let entries = load_entries(vec![]).unwrap();
    assert_eq!(load_entry(entries, "10.0.0"), Ok(Entry::official(10, 0, 0)));
}

#[test]
fn range_finds_the_first_release_that_meets_it() {
    let entries = load_entries(vec![]).unwrap();
    assert_eq!(load_entry(entries, ">=17.0.0, <18.0.0"), Ok(Entry::official(17, 0, 2)));
    let entries = load_entries(vec![]).unwrap();
    assert_eq!(load_entry(entries, "16"), Ok(Entry::official(16, 0, 6)));
    let entries = load_entries(vec![]).unwrap();
    assert_eq!(load_entry(entries, "*"), Ok(Entry::official(18, 1, 0)));
    let entries = load_entries(vec![]).unwrap();
    assert_eq!(load_entry(entries, "<11"), Ok(Entry::official(10, 0, 1)));
}

#[test]
fn user_entry_with_a_version_is_asked_first() {
    let entries = load_entries(user_sections()).unwrap();
    let found = load_entry(entries, ">=17.0.0, <18.0.0").unwrap();
    assert_eq!(found.name(), "17.5.1");
    assert_eq!(found, Entry::Remote {
        name: "17.5.1".into(),
        version: Some(Version::new(17, 5, 1)),
        url: "https://example.com/llvm-17.5.1.tar.gz".into(),
        setting: remote("https://example.com/llvm-17.5.1.tar.gz"),
    });
}

#[test]
fn user_entry_shadows_an_official_one_of_the_same_name() {
    let sections = vec![("18.1.0".to_string(), local("/my/llvm"))];
    let entries = load_entries(sections).unwrap();
    let found = load_entry(entries, "18.1.0").unwrap();
    assert!(matches!(found, Entry::Local { .. }));
}

#[test]
fn unknown_name_is_not_found() {
    for name in ["no-such-entry", "19.0.0", ">=19", "", "my-local", "18.1"] {
        let entries = load_entries(user_sections()).unwrap();
        let expected = if name == "18.1" {
            Ok(Entry::official(18, 1, 0))
        } else {
            Err(Error::InvalidEntry { name: name.into(), message: "Entry not found".into() })
        };
        assert_eq!(load_entry(entries, name), expected);
    }
}

#[test]
fn find_entry_goes_by_name_first() {
    let entries = load_entries(user_sections()).unwrap();
    let all = vec![true; entries.len()];
    let none = vec![false; entries.len()];
    assert_eq!(find_entry(&entries, "llvm-mirror", &all), Some(1));
    assert_eq!(find_entry(&entries, "16.0.0", &none), Some(7));
    assert_eq!(find_entry(&entries, "nothing", &all), Some(0));
    assert_eq!(find_entry(&entries, "nothing", &none), None);
    let mut third = none.clone();
    third[2] = true;
    third[5] = true;
    assert_eq!(find_entry(&entries, "nothing", &third), Some(2));
    assert_eq!(find_entry(&entries, "nothing", &vec![false, false, false, false, true]), Some(4));
    assert_eq!(find_entry(&entries, "nothing", &vec![]), None);
    assert_eq!(find_entry(&Vec::new(), "nothing", &vec![true]), None);
}

#[test]
fn set_builder_changes_the_generator_only() {
    let mut entry = Entry::official(18, 1, 0);
    assert_eq!(entry.set_builder("Ninja"), Ok(()));
    let expected = EntrySetting { generator: CMakeGenerator::Ninja, ..remote(&official_url("18.1.0")) };
    assert_eq!(entry.setting(), &expected);
    assert_eq!(entry.name(), "18.1.0");
    assert_eq!(entry.set_builder("vs"), Ok(()));
    assert_eq!(entry.setting().generator, CMakeGenerator::VisualStudio);
}

#[test]
fn set_builder_refuses_an_unknown_generator() {
    let mut entry = Entry::official(18, 1, 0);
    entry.set_builder("makefile").unwrap();
    let before = entry.clone();
    assert_eq!(
        entry.set_builder("MySuperBuilder"),
        Err(Error::UnsupportedGenerator { generator: "MySuperBuilder".into() })
    );
    assert_eq!(entry, before);
}

#[test]
fn set_build_type_changes_the_build_type_only() {
    let mut entry = Entry::parse_setting("l", None, local("/src")).unwrap();
    assert_eq!(entry.set_build_type(BuildType::Debug), Ok(()));
    assert_eq!(entry.setting(), &EntrySetting { build_type: BuildType::Debug, ..local("/src") });
}

#[test]
fn directories_of_a_remote_entry() {
    let entry = Entry::official(18, 1, 0);
    assert_eq!(entry.src_dir("/home/me/.cache/cargo-llvm"), "/home/me/.cache/cargo-llvm/18.1.0");
    assert_eq!(entry.build_dir("/home/me/.cache/cargo-llvm"), "/home/me/.cache/cargo-llvm/18.1.0/build");
    assert_eq!(entry.prefix("/home/me/.local/share/cargo-llvm"), "/home/me/.local/share/cargo-llvm/18.1.0");
}

#[test]
fn directories_of_a_local_entry() {
    let entry = Entry::parse_setting("my-local-llvm", None, local("/path/to/your/src")).unwrap();
    assert_eq!(entry.src_dir("/cache"), "/path/to/your/src");
    assert_eq!(entry.build_dir("/cache"), "/path/to/your/src/build");
    assert_eq!(entry.prefix("/data"), "/data/my-local-llvm");
}

#[test]
fn configure_orders_its_flags() {
    let mut option = Options::new();
    option.insert("LLVM_ENABLE_RTTI".into(), "ON".into());
    option.insert("CMAKE_CXX_STANDARD".into(), "17".into());
    let setting = EntrySetting {
        target: strings(&["X86", "AArch64"]),
        generator: CMakeGenerator::Ninja,
        build_type: BuildType::RelWithDebInfo,
        option,
        ..local("/src/llvm")
    };
    let entry = Entry::parse_setting("mine", None, setting).unwrap();
    assert_eq!(
        entry.configure_with("/cache", "/data", true, true),
        Invocation {
            program: "cmake".into(),
            args: strings(&[
                "-G",
                "Ninja",
                "/src/llvm",
                "-DCMAKE_INSTALL_PREFIX=/data/mine",
                "-DCMAKE_BUILD_TYPE=RelWithDebInfo",
                "-DLLVM_CCACHE_BUILD=ON",
                "-DLLVM_ENABLE_LLD=ON",
                "-DLLVM_TARGETS_TO_BUILD=X86;AArch64",
                "-DCMAKE_CXX_STANDARD=17",
                "-DLLVM_ENABLE_RTTI=ON",
            ]),
            dir: Some("/src/llvm/build".into()),
            silent: false,
        }
    );
}

#[test]
fn configure_leaves_out_what_is_not_there() {
    let entry = Entry::official(18, 1, 0);
    assert_eq!(
        entry.configure_with("/cache", "/data", false, false),
        Invocation {
            program: "cmake".into(),
            args: strings(&["/cache/18.1.0", "-DCMAKE_INSTALL_PREFIX=/data/18.1.0", "-DCMAKE_BUILD_TYPE=Release"]),
            dir: Some("/cache/18.1.0/build".into()),
            silent: false,
        }
    );
    assert_eq!(
        entry.configure_with("/cache", "/data", false, true).args,
        strings(&[
            "/cache/18.1.0",
            "-DCMAKE_INSTALL_PREFIX=/data/18.1.0",
            "-DCMAKE_BUILD_TYPE=Release",
            "-DLLVM_ENABLE_LLD=ON",
        ])
    );
    assert_eq!(
        entry.configure_with("/cache", "/data", true, false).args,
        strings(&[
            "/cache/18.1.0",
            "-DCMAKE_INSTALL_PREFIX=/data/18.1.0",
            "-DCMAKE_BUILD_TYPE=Release",
            "-DLLVM_CCACHE_BUILD=ON",
        ])
    );
}

#[test]
fn configure_is_the_same_whatever_the_order_of_the_options() {
    let items = [("C", "3"), ("A", "1"), ("B", "2")];
    let mut seen: Option<Invocation> = None;
    for order in [[0usize, 1, 2], [2, 1, 0], [1, 0, 2], [1, 2, 0]] {
        let mut option = Options::new();
        for i in order {
            option.insert(items[i].0.into(), items[i].1.into());
        }
        let setting = EntrySetting { option, ..remote("https://example.com/x.git") };
        let entry = Entry::parse_setting("e", None, setting).unwrap();
        let command = entry.configure_with("/c", "/d", false, false);
        assert_eq!(&command.args[3..], &strings(&["-DA=1", "-DB=2", "-DC=3"])[..]);
        assert_eq!(command, entry.configure_with("/c", "/d", false, false));
        match &seen {
            Some(first) => assert_eq!(first, &command),
            None => seen = Some(command),
        }
    }
}

#[test]
fn configure_finds_the_accelerators_itself() {
    let entry = Entry::official(18, 1, 0);
    let command = entry.configure("/cache", "/data");
    let candidates: Vec<Invocation> = [(false, false), (false, true), (true, false), (true, true)]
        .iter()
        .map(|(ccache, lld)| entry.configure_with("/cache", "/data", *ccache, *lld))
        .collect();
    assert!(candidates.contains(&command));
}

#[test]
fn build_command_depends_on_the_generator() {
    let mut entry = Entry::official(18, 1, 0);
    assert_eq!(
        entry.build_command("/cache", 4),
        Invocation {
            program: "cmake".into(),
            args: strings(&["--build", "/cache/18.1.0/build", "--target", "install"]),
            dir: None,
            silent: false,
        }
    );
    entry.set_builder("ninja").unwrap();
    assert_eq!(
        entry.build_command("/cache", 4).args,
        strings(&["--build", "/cache/18.1.0/build", "--target", "install", "--", "-j", "4"])
    );
    entry.set_builder("vs").unwrap();
    entry.set_build_type(BuildType::Debug).unwrap();
    assert_eq!(
        entry.build_command("/cache", 4).args,
        strings(&["--build", "/cache/18.1.0/build", "--target", "install", "--config", "Debug"])
    );
}

#[test]
fn build_configures_then_builds() {
    let mut entry = Entry::official(17, 0, 2);
    entry.set_builder("makefile").unwrap();
    let commands = entry.build("/cache", "/data", 12);
    assert_eq!(commands.len(), 2);
    assert_eq!(commands[0].program, "cmake");
    assert_eq!(commands[0].dir, Some("/cache/17.0.2/build".to_string()));
    assert_eq!(&commands[0].args[..3], &strings(&["-G", "Unix Makefiles", "/cache/17.0.2"])[..]);
    assert_eq!(commands[1], entry.build_command("/cache", 12));
}

#[test]
fn local_entry_has_nothing_to_fetch() {
    let entry = Entry::parse_setting("my-local-llvm", None, local("/path/to/your/src")).unwrap();
    for state in [DirState::Missing, DirState::Empty, DirState::Occupied, DirState::NotADirectory] {
        assert_eq!(
            entry.checkout("/cache", state, false, WhenOccupied::Skip, false),
            Ok(Fetch { create_dir: false, work: Work::Nothing })
        );
    }
    assert_eq!(entry.update("/cache", true), Ok(None));
    assert!(!entry.needs_probe());
}

#[test]
fn official_release_is_fetched_as_an_archive() {
    let entry = Entry::official(18, 1, 0);
    assert!(!entry.needs_probe());
    assert_eq!(
        entry.checkout("/cache", DirState::Missing, false, WhenOccupied::Skip, false),
        Ok(Fetch {
            create_dir: true,
            work: Work::Unpack {
                url: official_url("18.1.0"),
                cache: "/cache/cache".into(),
                archive: "/cache/cache/llvmorg-18.1.0.tar.gz".into(),
                tool_name: "llvm".into(),
                download: true,
            },
        })
    );
    assert_eq!(entry.update("/cache", false), Ok(None));
}

#[test]
fn repository_is_cloned_into_the_source_directory() {
    let entry = Entry::parse_setting("llvm-mirror", None, remote("https://github.com/llvm-mirror/llvm")).unwrap();
    assert!(!entry.needs_probe());
    assert_eq!(
        entry.checkout("/cache", DirState::Empty, false, WhenOccupied::Skip, false),
        Ok(Fetch {
            create_dir: false,
            work: Work::Run(Invocation {
                program: "git".into(),
                args: strings(&[
                    "clone",
                    "https://github.com/llvm-mirror/llvm",
                    "-q",
                    "--depth",
                    "1",
                    "/cache/llvm-mirror",
                ]),
                dir: None,
                silent: false,
            }),
        })
    );
    assert_eq!(
        entry.update("/cache", false),
        Ok(Some(Invocation {
            program: "git".into(),
            args: strings(&["pull"]),
            dir: Some("/cache/llvm-mirror".into()),
            silent: false,
        }))
    );
}

#[test]
fn checkout_twice_does_not_clone_again() {
    let entry = Entry::parse_setting("llvm-mirror", None, remote("https://github.com/llvm-mirror/llvm")).unwrap();
    let first = entry.checkout("/cache", DirState::Missing, false, WhenOccupied::Skip, false).unwrap();
    assert!(matches!(first.work, Work::Run(_)));
    let second = entry.checkout("/cache", DirState::Occupied, false, WhenOccupied::Skip, false);
    assert_eq!(second, Ok(Fetch { create_dir: false, work: Work::Nothing }));
    let archive = Entry::official(18, 1, 0);
    let first = archive.checkout("/cache", DirState::Missing, false, WhenOccupied::Skip, false).unwrap();
    assert!(matches!(first.work, Work::Unpack { download: true, .. }));
    let second = archive.checkout("/cache", DirState::Occupied, true, WhenOccupied::Skip, false).unwrap();
    assert!(matches!(second.work, Work::Unpack { download: false, .. }));
    assert!(!second.create_dir);
}

#[test]
fn archive_file_of_an_entry() {
    assert_eq!(
        Entry::official(18, 1, 0).archive_file("/cache", false),
        Ok(Some("/cache/cache/llvmorg-18.1.0.tar.gz".to_string()))
    );
    let local_entry = Entry::parse_setting("l", None, local("/src")).unwrap();
    assert_eq!(local_entry.archive_file("/cache", false), Ok(None));
    let git = Entry::parse_setting("g", None, remote("https://github.com/llvm/llvm-project")).unwrap();
    assert_eq!(git.archive_file("/cache", false), Ok(None));
    let bad = Entry::parse_setting("b", None, remote("no url")).unwrap();
    assert_eq!(bad.archive_file("/cache", false), Err(Error::InvalidUrl { url: "no url".into() }));
}

#[test]
fn cleaning_removes_what_is_there() {
    let entry = Entry::official(18, 1, 0);
    for state in [DirState::Empty, DirState::Occupied] {
        assert_eq!(entry.clean_cache_dir("/cache", state), Ok(Some("/cache/18.1.0".to_string())));
        assert_eq!(entry.clean_build_dir("/cache", state), Ok(Some("/cache/18.1.0/build".to_string())));
    }
}

#[test]
fn cleaning_what_is_missing_is_done_already() {
    let entry = Entry::official(18, 1, 0);
    assert_eq!(entry.clean_cache_dir("/cache", DirState::Missing), Ok(None));
    assert_eq!(entry.clean_build_dir("/cache", DirState::Missing), Ok(None));
}

#[test]
fn cleaning_what_is_no_directory_is_refused() {
    let entry = Entry::parse_setting("l", None, local("/src")).unwrap();
    assert_eq!(
        entry.clean_cache_dir("/cache", DirState::NotADirectory),
        Err(Error::NotADirectory { path: "/src".into() })
    );
    assert_eq!(
        entry.clean_build_dir("/cache", DirState::NotADirectory),
        Err(Error::NotADirectory { path: "/src/build".into() })
    );
}

#[test]
fn entry_of_undecided_shape_needs_the_probe() {
    let entry = Entry::parse_setting("mine", None, remote("https://example.com/repos/llvm")).unwrap();
    assert!(entry.needs_probe());
    let git = entry.checkout("/cache", DirState::Missing, false, WhenOccupied::Skip, true).unwrap();
    match git.work {
        Work::Run(command) => assert_eq!(command.program, "git"),
        _ => panic!("a repository is checked out by its client"),
    }
    let svn = entry.checkout("/cache", DirState::Missing, false, WhenOccupied::Skip, false).unwrap();
    match svn.work {
        Work::Run(command) => assert_eq!(command.program, "svn"),
        _ => panic!("a repository is checked out by its client"),
    }
    assert_eq!(entry.update("/cache", false).unwrap().unwrap().program, "svn");
}

#[test]
fn entry_with_a_malformed_url_cannot_be_fetched() {
    let entry = Entry::parse_setting("bad", None, remote("not a url")).unwrap();
    assert!(!entry.needs_probe());
    assert_eq!(
        entry.checkout("/cache", DirState::Missing, false, WhenOccupied::Skip, true),
        Err(Error::InvalidUrl { url: "not a url".into() })
    );
    assert_eq!(entry.update("/cache", true), Err(Error::InvalidUrl { url: "not a url".into() }));
}

#[test]
fn source_directory_that_is_no_directory_is_refused() {
    let entry = Entry::official(18, 1, 0);
    assert_eq!(
        entry.checkout("/cache", DirState::NotADirectory, false, WhenOccupied::Skip, false),
        Err(Error::NotADirectory { path: "/cache/18.1.0".into() })
    );
}
