use cargo_llvm::commands::build_entry::{build_entry_command, build_steps, Step};
use cargo_llvm::entry::BuildType;

#[test]
fn plain_build_fetches_and_builds() {
    assert_eq!(
        build_steps(false, false, false, None, 4, None, false),
        vec![Step::Checkout, Step::Build(4)]
    );
}

#[test]
fn every_step_has_its_place() {
    assert_eq!(
        build_steps(true, true, true, Some("ninja".into()), 16, Some(BuildType::Debug), false),
        vec![
            Step::SetBuilder("ninja".into()),
            Step::SetBuildType(BuildType::Debug),
            Step::CleanCacheDir,
            Step::Checkout,
            Step::Update,
            Step::CleanBuildDir,
            Step::Build(16),
        ]
    );
}

#[test]
fn skipping_leaves_out_the_checkout_only() {
    assert_eq!(
        build_steps(true, false, true, None, 1, None, true),
        vec![Step::CleanCacheDir, Step::Update, Step::Build(1)]
    );
    assert_eq!(build_steps(false, true, false, None, 0, None, true), vec![Step::CleanBuildDir, Step::Build(0)]);
}

#[test]
fn builder_is_passed_on_unread() {
    assert_eq!(
        build_steps(false, false, false, Some("MySuperBuilder".into()), 2, Some(BuildType::MinSizeRel), true),
        vec![Step::SetBuilder("MySuperBuilder".into()), Step::SetBuildType(BuildType::MinSizeRel), Step::Build(2)]
    );
}

#[test]
fn given_job_count_is_kept() {
    assert_eq!(
        build_entry_command(false, false, false, None, Some(3), None, false),
        build_steps(false, false, false, None, 3, None, false)
    );
}

#[test]
fn missing_job_count_is_the_machines() {
    let steps = build_entry_command(true, false, false, None, None, None, true);
    assert_eq!(steps.len(), 2);
    assert_eq!(steps[0], Step::Update);
    match steps[1] {
        Step::Build(jobs) => assert!(jobs >= 1),
        _ => panic!("the last step builds"),
    }
}
