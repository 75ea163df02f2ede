//! The choices that an entry passes on to CMake: the generator and the build
//! type.

use vstd::prelude::*;
use vstd::string::*;
use crate::error::{Error, ErrorView};
use crate::text::{decimal, decimal_text, lower, push_text, same_ignoring_case, views};

verus! {

/// The generator that CMake writes build files for.
#[derive(Debug, Clone, Copy, PartialEq, Eq, Structural)]
pub enum CMakeGenerator {
    /// The platform's default: no `-G` is passed.
    Platform,
    /// Unix Makefiles.
    Makefile,
    /// Ninja.
    Ninja,
    /// Visual Studio 15 2017.
    VisualStudio,
    /// Visual Studio 15 2017 Win64.
    VisualStudioWin64,
}

/// The build type that CMake configures.
#[derive(Debug, Clone, Copy, PartialEq, Eq, Structural)]
pub enum BuildType {
    Debug,
    Release,
    RelWithDebInfo,
    MinSizeRel,
}

/// The generator that `text` names, whatever the case of its letters:
/// `makefile`, `ninja`, and `visualstudio` or `vs` for short. Any other text
/// is refused.
pub open spec fn generator_spec(text: Seq<char>) -> Result<CMakeGenerator, ErrorView> {
    let word = lower(text);
    if word == "makefile"@ {
        Ok(CMakeGenerator::Makefile)
    } else if word == "ninja"@ {
        Ok(CMakeGenerator::Ninja)
    } else if word == "visualstudio"@ || word == "vs"@ {
        Ok(CMakeGenerator::VisualStudio)
    } else {
        Err(ErrorView::UnsupportedGenerator { generator: text })
    }
}

/// The build type that `text` names, whatever the case of its letters. Any
/// text that names none is refused.
pub open spec fn build_type_spec(text: Seq<char>) -> Result<BuildType, ErrorView> {
    let word = lower(text);
    if word == "debug"@ {
        Ok(BuildType::Debug)
    } else if word == "release"@ {
        Ok(BuildType::Release)
    } else if word == "relwithdebinfo"@ {
        Ok(BuildType::RelWithDebInfo)
    } else if word == "minsizerel"@ {
        Ok(BuildType::MinSizeRel)
    } else {
        Err(ErrorView::UnsupportedBuildType { build_type: text })
    }
}

/// The arguments that choose the generator when CMake configures.
pub open spec fn generator_option(generator: CMakeGenerator) -> Seq<Seq<char>> {
    match generator {
        CMakeGenerator::Platform => Seq::empty(),
        CMakeGenerator::Makefile => seq!["-G"@, "Unix Makefiles"@],
        CMakeGenerator::Ninja => seq!["-G"@, "Ninja"@],
        CMakeGenerator::VisualStudio => seq!["-G"@, "Visual Studio 15 2017"@],
        CMakeGenerator::VisualStudioWin64 => seq![
            "-G"@,
            "Visual Studio 15 2017 Win64"@,
            "-Thost=x64"@,
        ],
    }
}

/// The name of a build type, as CMake spells it.
pub open spec fn build_type_name(build_type: BuildType) -> Seq<char> {
    match build_type {
        BuildType::Debug => "Debug"@,
        BuildType::Release => "Release"@,
        BuildType::RelWithDebInfo => "RelWithDebInfo"@,
        BuildType::MinSizeRel => "MinSizeRel"@,
    }
}

/// The arguments that follow `cmake --build`: the Makefile and Ninja
/// generators are told how many jobs to run at once, the Visual Studio
/// generators which configuration to build, the platform's default nothing.
pub open spec fn generator_build_option(
    generator: CMakeGenerator,
    nproc: usize,
    build_type: BuildType,
) -> Seq<Seq<char>> {
    match generator {
        CMakeGenerator::VisualStudioWin64 | CMakeGenerator::VisualStudio => seq![
            "--config"@,
            build_type_name(build_type),
        ],
        CMakeGenerator::Platform => Seq::empty(),
        CMakeGenerator::Makefile | CMakeGenerator::Ninja => seq![
            "--"@,
            "-j"@,
            decimal(nproc as nat),
        ],
    }
}

/// A generator or an error, the error taken by its view.
pub open spec fn generator_result_view(r: Result<CMakeGenerator, Error>) -> Result<
    CMakeGenerator,
    ErrorView,
> {
    match r {
        Ok(g) => Ok(g),
        Err(e) => Err(e@),
    }
}

/// A build type or an error, the error taken by its view.
pub open spec fn build_type_result_view(r: Result<BuildType, Error>) -> Result<BuildType, ErrorView> {
    match r {
        Ok(b) => Ok(b),
        Err(e) => Err(e@),
    }
}

/// Whether `text` is `word` but for the case of its letters. `word` is
/// written in small letters.
fn is_word(text: &str, word: &str) -> (same: bool)
    requires
        lower(word@) == word@,
    ensures
        same == (lower(text@) == word@),
{
    same_ignoring_case(text, word)
}

impl Default for CMakeGenerator {
    fn default() -> (generator: Self)
        ensures
            generator == CMakeGenerator::Platform,
    {
        CMakeGenerator::Platform
    }
}

impl Default for BuildType {
    fn default() -> (build_type: Self)
        ensures
            build_type == BuildType::Release,
    {
        BuildType::Release
    }
}

impl CMakeGenerator {
    /// Reads a generator from its name.
    pub fn from_str(generator: &str) -> (parsed: Result<Self, Error>)
        ensures
            generator_result_view(parsed) == generator_spec(generator@),
    {
        proof {
            reveal_strlit("makefile");
            reveal_strlit("ninja");
            reveal_strlit("visualstudio");
            reveal_strlit("vs");
            assert(lower("makefile"@) =~= "makefile"@);
            assert(lower("ninja"@) =~= "ninja"@);
            assert(lower("visualstudio"@) =~= "visualstudio"@);
            assert(lower("vs"@) =~= "vs"@);
        }
        if is_word(generator, "makefile") {
            Ok(CMakeGenerator::Makefile)
        } else if is_word(generator, "ninja") {
            Ok(CMakeGenerator::Ninja)
        } else if is_word(generator, "visualstudio") || is_word(generator, "vs") {
            Ok(CMakeGenerator::VisualStudio)
        } else {
            Err(Error::UnsupportedGenerator { generator: String::from_str(generator) })
        }
    }

    /// The arguments that choose this generator when CMake configures.
    pub fn option(&self) -> (args: Vec<String>)
        ensures
            views(args@) == generator_option(*self),
    {
        let mut args: Vec<String> = Vec::new();
        assert(views(args@) =~= Seq::<Seq<char>>::empty());
        match self {
            CMakeGenerator::Platform => {},
            CMakeGenerator::Makefile => {
                push_text(&mut args, "-G");
                push_text(&mut args, "Unix Makefiles");
            },
            CMakeGenerator::Ninja => {
                push_text(&mut args, "-G");
                push_text(&mut args, "Ninja");
            },
            CMakeGenerator::VisualStudio => {
                push_text(&mut args, "-G");
                push_text(&mut args, "Visual Studio 15 2017");
            },
            CMakeGenerator::VisualStudioWin64 => {
                push_text(&mut args, "-G");
                push_text(&mut args, "Visual Studio 15 2017 Win64");
                push_text(&mut args, "-Thost=x64");
            },
        }
        assert(views(args@) =~= generator_option(*self));
        args
    }

    /// The arguments that follow `cmake --build` for this generator, to
    /// build `build_type` with `nproc` jobs at once.
    pub fn build_option(&self, nproc: usize, build_type: BuildType) -> (args: Vec<String>)
        ensures
            views(args@) == generator_build_option(*self, nproc, build_type),
    {
        let mut args: Vec<String> = Vec::new();
        assert(views(args@) =~= Seq::<Seq<char>>::empty());
        match self {
            CMakeGenerator::VisualStudioWin64 | CMakeGenerator::VisualStudio => {
                push_text(&mut args, "--config");
                push_text(&mut args, build_type.name());
            },
            CMakeGenerator::Platform => {},
            CMakeGenerator::Makefile | CMakeGenerator::Ninja => {
                push_text(&mut args, "--");
                push_text(&mut args, "-j");
                push_text(&mut args, decimal_text(nproc as u64).as_str());
            },
        }
        assert(views(args@) =~= generator_build_option(*self, nproc, build_type));
        args
    }
}

impl BuildType {
    /// Reads a build type from its name.
    pub fn from_str(s: &str) -> (parsed: Result<Self, Error>)
        ensures
            build_type_result_view(parsed) == build_type_spec(s@),
    {
        proof {
            reveal_strlit("debug");
            reveal_strlit("release");
            reveal_strlit("relwithdebinfo");
            reveal_strlit("minsizerel");
            assert(lower("debug"@) =~= "debug"@);
            assert(lower("release"@) =~= "release"@);
            assert(lower("relwithdebinfo"@) =~= "relwithdebinfo"@);
            assert(lower("minsizerel"@) =~= "minsizerel"@);
        }
        if is_word(s, "debug") {
            Ok(BuildType::Debug)
        } else if is_word(s, "release") {
            Ok(BuildType::Release)
        } else if is_word(s, "relwithdebinfo") {
            Ok(BuildType::RelWithDebInfo)
        } else if is_word(s, "minsizerel") {
            Ok(BuildType::MinSizeRel)
        } else {
            Err(Error::UnsupportedBuildType { build_type: String::from_str(s) })
        }
    }

    /// The name of the build type, as CMake spells it.
    pub fn name(&self) -> (name: &'static str)
        ensures
            name@ == build_type_name(*self),
    {
        match self {
            BuildType::Debug => "Debug",
            BuildType::Release => "Release",
            BuildType::RelWithDebInfo => "RelWithDebInfo",
            BuildType::MinSizeRel => "MinSizeRel",
        }
    }
}

/// The name of a generator is read without regard to the case of its
/// letters: two texts that differ in case only name the same generator, or
/// both name none. `vs` is another name for Visual Studio, and a text that
/// names no generator is refused as such, with the text.
pub proof fn lemma_generator_ignores_case(a: Seq<char>, b: Seq<char>)
    requires
        lower(a) == lower(b),
    ensures
        generator_spec(a) is Ok <==> generator_spec(b) is Ok,
        generator_spec(a) is Ok ==> generator_spec(a) == generator_spec(b),
        lower(a) == "vs"@ ==> generator_spec(a) == Ok::<CMakeGenerator, ErrorView>(
            CMakeGenerator::VisualStudio,
        ),
        generator_spec(a) is Err ==> generator_spec(a) == Err::<CMakeGenerator, ErrorView>(
            ErrorView::UnsupportedGenerator { generator: a },
        ),
{
    reveal_strlit("makefile");
    reveal_strlit("ninja");
    reveal_strlit("vs");
    assert("makefile"@.len() == 8);
    assert("ninja"@.len() == 5);
    assert("vs"@.len() == 2);
}

/// The name of a build type is read without regard to the case of its
/// letters.
pub proof fn lemma_build_type_ignores_case(a: Seq<char>, b: Seq<char>)
    requires
        lower(a) == lower(b),
    ensures
        build_type_spec(a) is Ok <==> build_type_spec(b) is Ok,
        build_type_spec(a) is Ok ==> build_type_spec(a) == build_type_spec(b),
        build_type_spec(a) is Err ==> build_type_spec(a) == Err::<BuildType, ErrorView>(
            ErrorView::UnsupportedBuildType { build_type: a },
        ),
{
}

} // verus!
