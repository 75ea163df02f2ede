use cargo_llvm::command::Invocation;
use cargo_llvm::error::Error;

fn command(program: &str, args: &[&str]) -> Invocation {
    Invocation {
        program: program.to_string(),
        args: args.iter().map(|s| s.to_string()).collect(),
        dir: None,
        silent: false,
    }
}

#[test]
fn line_joins_program_and_arguments() {
    assert_eq!(command("git", &[]).line(), "git");
    assert_eq!(command("git", &["pull"]).line(), "git pull");
    assert_eq!(
        command("cmake", &["--build", "/b", "--target", "install", "--", "-j", "4"]).line(),
        "cmake --build /b --target install -- -j 4"
    );
    assert_eq!(command("cmake", &["-G", "Unix Makefiles", ""]).line(), "cmake -G Unix Makefiles ");
}

#[test]
fn exit_with_zero_is_success() {
    assert_eq!(command("git", &["pull"]).check(Some(0)), Ok(()));
}

#[test]
fn any_other_end_is_a_command_error() {
    let git = command("git", &["clone", "u"]);
    for status in [Some(1), Some(-1), Some(128), Some(i32::MAX), Some(i32::MIN), None] {
        assert_eq!(
            git.check(status),
            Err(Error::CommandError { command: "git clone u".into(), exit_status: status })
        );
    }
}
