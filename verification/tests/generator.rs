use cargo_llvm::entry::{BuildType, CMakeGenerator};
use cargo_llvm::error::Error;

fn strings(items: &[&str]) -> Vec<String> {
    items.iter().map(|s| s.to_string()).collect()
}

#[test]
fn generator_is_read_from_its_name() {
    assert_eq!(CMakeGenerator::from_str("Makefile").unwrap(), CMakeGenerator::Makefile);
    assert_eq!(CMakeGenerator::from_str("Ninja").unwrap(), CMakeGenerator::Ninja);
    assert_eq!(CMakeGenerator::from_str("vs").unwrap(), CMakeGenerator::VisualStudio);
    assert_eq!(CMakeGenerator::from_str("VisualStudio").unwrap(), CMakeGenerator::VisualStudio);
    assert!(CMakeGenerator::from_str("MySuperBuilder").is_err());
}

#[test]
fn generator_name_ignores_case() {
    for name in ["makefile", "MAKEFILE", "mAkEfIlE"] {
        assert_eq!(CMakeGenerator::from_str(name), Ok(CMakeGenerator::Makefile));
    }
    for name in ["ninja", "NINJA", "NinJa"] {
        assert_eq!(CMakeGenerator::from_str(name), Ok(CMakeGenerator::Ninja));
    }
    for name in ["vs", "VS", "Vs", "vS", "visualstudio", "VISUALSTUDIO", "visualStudio"] {
        assert_eq!(CMakeGenerator::from_str(name), Ok(CMakeGenerator::VisualStudio));
    }
}

#[test]
fn unknown_generator_is_unsupported() {
    for name in ["", "make", "Unix Makefiles", "ninja ", " vs", "platform", "VisualStudioWin64", "ｖｓ", "msvc"] {
        assert_eq!(
            CMakeGenerator::from_str(name),
            Err(Error::UnsupportedGenerator { generator: name.into() })
        );
    }
}

#[test]
fn default_generator_is_the_platforms() {
    assert_eq!(CMakeGenerator::default(), CMakeGenerator::Platform);
}

#[test]
fn generator_option_of_each() {
    assert_eq!(CMakeGenerator::Platform.option(), Vec::<String>::new());
    assert_eq!(CMakeGenerator::Makefile.option(), strings(&["-G", "Unix Makefiles"]));
    assert_eq!(CMakeGenerator::Ninja.option(), strings(&["-G", "Ninja"]));
    assert_eq!(CMakeGenerator::VisualStudio.option(), strings(&["-G", "Visual Studio 15 2017"]));
    assert_eq!(
        CMakeGenerator::VisualStudioWin64.option(),
        strings(&["-G", "Visual Studio 15 2017 Win64", "-Thost=x64"])
    );
}

#[test]
fn build_option_of_each() {
    assert_eq!(CMakeGenerator::Platform.build_option(8, BuildType::Release), Vec::<String>::new());
    assert_eq!(CMakeGenerator::Makefile.build_option(8, BuildType::Release), strings(&["--", "-j", "8"]));
    assert_eq!(CMakeGenerator::Ninja.build_option(128, BuildType::Debug), strings(&["--", "-j", "128"]));
    assert_eq!(CMakeGenerator::Ninja.build_option(0, BuildType::Debug), strings(&["--", "-j", "0"]));
    assert_eq!(
        CMakeGenerator::VisualStudio.build_option(8, BuildType::Release),
        strings(&["--config", "Release"])
    );
    assert_eq!(
        CMakeGenerator::VisualStudioWin64.build_option(1, BuildType::RelWithDebInfo),
        strings(&["--config", "RelWithDebInfo"])
    );
    assert_eq!(
        CMakeGenerator::VisualStudio.build_option(1, BuildType::MinSizeRel),
        strings(&["--config", "MinSizeRel"])
    );
    assert_eq!(
        CMakeGenerator::VisualStudio.build_option(1, BuildType::Debug),
        strings(&["--config", "Debug"])
    );
}

#[test]
fn build_option_counts_jobs_in_base_ten() {
    assert_eq!(
        CMakeGenerator::Makefile.build_option(usize::MAX, BuildType::Release),
        strings(&["--", "-j", &format!("{}", usize::MAX)])
    );
}

#[test]
fn build_type_is_read_from_its_name() {
    assert_eq!(BuildType::from_str("Debug"), Ok(BuildType::Debug));
    assert_eq!(BuildType::from_str("release"), Ok(BuildType::Release));
    assert_eq!(BuildType::from_str("RELWITHDEBINFO"), Ok(BuildType::RelWithDebInfo));
    assert_eq!(BuildType::from_str("relWithDebInfo"), Ok(BuildType::RelWithDebInfo));
    assert_eq!(BuildType::from_str("MinSizeRel"), Ok(BuildType::MinSizeRel));
}

#[test]
fn unknown_build_type_is_unsupported() {
    for name in ["", "fast", "Release ", "rel", "debug\n"] {
        assert_eq!(
            BuildType::from_str(name),
            Err(Error::UnsupportedBuildType { build_type: name.into() })
        );
    }
}

#[test]
fn build_type_names_and_default() {
    assert_eq!(BuildType::default(), BuildType::Release);
    assert_eq!(BuildType::Debug.name(), "Debug");
    assert_eq!(BuildType::Release.name(), "Release");
    assert_eq!(BuildType::RelWithDebInfo.name(), "RelWithDebInfo");
    assert_eq!(BuildType::MinSizeRel.name(), "MinSizeRel");
    for build_type in [BuildType::Debug, BuildType::Release, BuildType::RelWithDebInfo, BuildType::MinSizeRel] {
        assert_eq!(build_type.name(), format!("{:?}", build_type));
        assert_eq!(BuildType::from_str(build_type.name()), Ok(build_type));
    }
}
