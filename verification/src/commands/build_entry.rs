//! Building an entry: which steps are taken, and in which order.

use vstd::prelude::*;
use crate::generator::BuildType;
use crate::text::opt_view;

verus! {

/// One step on the way from an entry to its installed build.
#[derive(Debug, Clone, PartialEq, Eq)]
pub enum Step {
    /// Choose the generator that the text names.
    SetBuilder(String),
    /// Choose the build type.
    SetBuildType(BuildType),
    /// Remove the entry's source directory.
    CleanCacheDir,
    /// Fetch the entry's source.
    Checkout,
    /// Bring the entry's source up to date.
    Update,
    /// Remove the entry's build directory.
    CleanBuildDir,
    /// Configure, build and install, with this many jobs at once.
    Build(usize),
}

/// A `Step` with its text as a sequence of characters.
pub enum StepView {
    SetBuilder(Seq<char>),
    SetBuildType(BuildType),
    CleanCacheDir,
    Checkout,
    Update,
    CleanBuildDir,
    Build(usize),
}

impl View for Step {
    type V = StepView;

    open spec fn view(&self) -> StepView {
        match *self {
            Step::SetBuilder(generator) => StepView::SetBuilder(generator@),
            Step::SetBuildType(build_type) => StepView::SetBuildType(build_type),
            Step::CleanCacheDir => StepView::CleanCacheDir,
            Step::Checkout => StepView::Checkout,
            Step::Update => StepView::Update,
            Step::CleanBuildDir => StepView::CleanBuildDir,
            Step::Build(nproc) => StepView::Build(nproc),
        }
    }
}

/// The view of each step of a sequence.
pub open spec fn step_views(steps: Seq<Step>) -> Seq<StepView> {
    steps.map_values(|s: Step| s@)
}

/// `step` where `wanted` holds, and nothing otherwise.
pub open spec fn step_if(wanted: bool, step: StepView) -> Seq<StepView> {
    if wanted {
        seq![step]
    } else {
        Seq::empty()
    }
}

/// The steps that build an entry, in the one order in which they are taken:
/// the generator and the build type are chosen where they are given, the
/// source directory is removed where it is to be discarded, the source is
/// fetched unless that is skipped and brought up to date where asked, the
/// build directory is removed where it is to be cleaned, and the entry is
/// built.
pub open spec fn steps_spec(
    update: bool,
    clean: bool,
    discard: bool,
    builder: Option<Seq<char>>,
    nproc: usize,
    build_type: Option<BuildType>,
    skip: bool,
) -> Seq<StepView> {
    (match builder {
        Some(generator) => seq![StepView::SetBuilder(generator)],
        None => Seq::empty(),
    }) + (match build_type {
        Some(build_type) => seq![StepView::SetBuildType(build_type)],
        None => Seq::empty(),
    }) + step_if(discard, StepView::CleanCacheDir) + step_if(!skip, StepView::Checkout) + step_if(
        update,
        StepView::Update,
    ) + step_if(clean, StepView::CleanBuildDir) + seq![StepView::Build(nproc)]
}

/// The number of processors of this machine, from `num_cpus::get`. It
/// depends on the machine, so nothing is claimed of it.
#[verifier::external_body]
pub(crate) fn cpu_count() -> (count: usize) {
    num_cpus::get()
}

fn push_step(steps: &mut Vec<Step>, step: Step)
    ensures
        step_views(final(steps)@) == step_views(old(steps)@).push(step@),
{
    let ghost before = steps@;
    steps.push(step);
    assert(step_views(steps@) =~= step_views(before).push(step@));
}

/// The steps that build an entry with `nproc` jobs at once.
pub fn build_steps(
    update: bool,
    clean: bool,
    discard: bool,
    builder: Option<String>,
    nproc: usize,
    build_type: Option<BuildType>,
    skip: bool,
) -> (steps: Vec<Step>)
    ensures
        step_views(steps@) == steps_spec(
            update,
            clean,
            discard,
            opt_view(builder),
            nproc,
            build_type,
            skip,
        ),
{
    let mut steps: Vec<Step> = Vec::new();
    assert(step_views(steps@) =~= Seq::<StepView>::empty());
    let ghost chosen = opt_view(builder);
    match builder {
        Some(generator) => {
            push_step(&mut steps, Step::SetBuilder(generator));
        },
        None => {},
    }
    let ghost s1: Seq<StepView> = match chosen {
        Some(generator) => seq![StepView::SetBuilder(generator)],
        None => Seq::empty(),
    };
    assert(step_views(steps@) =~= s1);
    match build_type {
        Some(build_type) => {
            push_step(&mut steps, Step::SetBuildType(build_type));
        },
        None => {},
    }
    let ghost s2: Seq<StepView> = s1 + (match build_type {
        Some(build_type) => seq![StepView::SetBuildType(build_type)],
        None => Seq::empty(),
    });
    assert(step_views(steps@) =~= s2);
    if discard {
        push_step(&mut steps, Step::CleanCacheDir);
    }
    let ghost s3 = s2 + step_if(discard, StepView::CleanCacheDir);
    assert(step_views(steps@) =~= s3);
    if !skip {
        push_step(&mut steps, Step::Checkout);
    }
    let ghost s4 = s3 + step_if(!skip, StepView::Checkout);
    assert(step_views(steps@) =~= s4);
    if update {
        push_step(&mut steps, Step::Update);
    }
    let ghost s5 = s4 + step_if(update, StepView::Update);
    assert(step_views(steps@) =~= s5);
    if clean {
        push_step(&mut steps, Step::CleanBuildDir);
    }
    let ghost s6 = s5 + step_if(clean, StepView::CleanBuildDir);
    assert(step_views(steps@) =~= s6);
    push_step(&mut steps, Step::Build(nproc));
    assert(step_views(steps@) =~= s6 + seq![StepView::Build(nproc)]);
    steps
}

/// The steps that build an entry. Where `nproc` is not given, as many jobs
/// run at once as the machine has processors.
pub fn build_entry_command(
    update: bool,
    clean: bool,
    discard: bool,
    builder: Option<String>,
    nproc: Option<usize>,
    build_type: Option<BuildType>,
    skip: bool,
) -> (steps: Vec<Step>)
    ensures
        exists|jobs: usize|
            {
                &&& nproc is Some ==> jobs == nproc->0
                &&& step_views(steps@) == #[trigger] steps_spec(
                    update,
                    clean,
                    discard,
                    opt_view(builder),
                    jobs,
                    build_type,
                    skip,
                )
            },
{
    let jobs = match nproc {
        Some(jobs) => jobs,
        None => cpu_count(),
    };
    let ghost chosen = opt_view(builder);
    let steps = build_steps(update, clean, discard, builder, jobs, build_type, skip);
    assert(step_views(steps@) == steps_spec(update, clean, discard, chosen, jobs, build_type, skip));
    steps
}

/// The place of a step in the order of a build.
pub open spec fn rank(step: StepView) -> int {
    match step {
        StepView::SetBuilder(_) => 0,
        StepView::SetBuildType(_) => 1,
        StepView::CleanCacheDir => 2,
        StepView::Checkout => 3,
        StepView::Update => 4,
        StepView::CleanBuildDir => 5,
        StepView::Build(_) => 6,
    }
}

/// Whatever is asked for, the steps of a build come in the one order, none
/// twice, and the build itself comes last.
pub proof fn lemma_steps_in_order(
    update: bool,
    clean: bool,
    discard: bool,
    builder: Option<Seq<char>>,
    nproc: usize,
    build_type: Option<BuildType>,
    skip: bool,
)
    ensures
        ({
            let steps = steps_spec(update, clean, discard, builder, nproc, build_type, skip);
            &&& steps.len() > 0
            &&& steps.last() == StepView::Build(nproc)
            &&& forall|i: int, j: int|
                0 <= i < j < steps.len() ==> rank(#[trigger] steps[i]) < rank(#[trigger] steps[j])
        }),
{
    let s0: Seq<StepView> = match builder {
        Some(generator) => seq![StepView::SetBuilder(generator)],
        None => Seq::empty(),
    };
    let s1: Seq<StepView> = s0 + (match build_type {
        Some(build_type) => seq![StepView::SetBuildType(build_type)],
        None => Seq::empty(),
    });
    let s2 = s1 + step_if(discard, StepView::CleanCacheDir);
    let s3 = s2 + step_if(!skip, StepView::Checkout);
    let s4 = s3 + step_if(update, StepView::Update);
    let s5 = s4 + step_if(clean, StepView::CleanBuildDir);
    let steps = s5 + seq![StepView::Build(nproc)];
    assert(forall|i: int| 0 <= i < s0.len() ==> rank(#[trigger] s0[i]) <= 0);
    assert(forall|i: int| 0 <= i < s1.len() ==> rank(#[trigger] s1[i]) <= 1);
    assert(forall|i: int| 0 <= i < s2.len() ==> rank(#[trigger] s2[i]) <= 2);
    assert(forall|i: int| 0 <= i < s3.len() ==> rank(#[trigger] s3[i]) <= 3);
    assert(forall|i: int| 0 <= i < s4.len() ==> rank(#[trigger] s4[i]) <= 4);
    assert(forall|i: int| 0 <= i < s5.len() ==> rank(#[trigger] s5[i]) <= 5);
    assert(forall|i: int, j: int|
        0 <= i < j < s0.len() ==> rank(#[trigger] s0[i]) < rank(#[trigger] s0[j]));
    assert(forall|i: int, j: int|
        0 <= i < j < s1.len() ==> rank(#[trigger] s1[i]) < rank(#[trigger] s1[j]));
    assert(forall|i: int, j: int|
        0 <= i < j < s2.len() ==> rank(#[trigger] s2[i]) < rank(#[trigger] s2[j]));
    assert(forall|i: int, j: int|
        0 <= i < j < s3.len() ==> rank(#[trigger] s3[i]) < rank(#[trigger] s3[j]));
    assert(forall|i: int, j: int|
        0 <= i < j < s4.len() ==> rank(#[trigger] s4[i]) < rank(#[trigger] s4[j]));
    assert(forall|i: int, j: int|
        0 <= i < j < s5.len() ==> rank(#[trigger] s5[i]) < rank(#[trigger] s5[j]));
    assert(forall|i: int, j: int|
        0 <= i < j < steps.len() ==> rank(#[trigger] steps[i]) < rank(#[trigger] steps[j]));
}

} // verus!
