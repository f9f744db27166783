//! The required directories: what to do about each, given what was found at
//! its path, and whether the layout as a whole is in order.
//!
//! The caller looks at the disk and reports a [`PathStatus`] per required
//! path; the library answers with a [`DirStep`] per path and one outcome for
//! the whole layout. Only the caller writes to the disk, and only where a
//! step asks for it.

use crate::severity::Severity;
use vstd::prelude::*;

verus! {

/// What the file system holds at a required path.
#[derive(Clone, Copy, Debug, PartialEq, Eq, Structural)]
pub enum PathStatus {
    /// A directory is there.
    Directory,
    /// Something is there, and it is not a directory.
    NotDirectory,
    /// Nothing could be found there.
    Missing,
}

/// What is to be done about one required path.
#[derive(Clone, Copy, Debug, PartialEq, Eq, Structural)]
pub enum DirStep {
    /// The directory is in place: nothing to do, nothing to report.
    Accept,
    /// The path is taken by something else. It is reported and left as it is.
    ReportNotDirectory,
    /// The directory is missing. It is reported and not created.
    ReportMissing,
    /// The directory is missing. The caller tries to create it, and reports
    /// the path whether or not the creation went through.
    CreateAndReport,
}

impl DirStep {
    /// Every step but `Accept` marks a problem with the layout.
    pub open spec fn is_problem(self) -> bool {
        self != DirStep::Accept
    }

    /// Only `CreateAndReport` asks for a write to the disk.
    pub open spec fn wants_creation(self) -> bool {
        self == DirStep::CreateAndReport
    }

    /// The level of the step's diagnostic: a warning for every problem.
    pub open spec fn level(self) -> Severity {
        if self.is_problem() {
            Severity::Warn
        } else {
            Severity::Trace
        }
    }

    /// Whether this step is a problem that fails the layout check.
    pub fn problem(&self) -> (b: bool)
        ensures
            b == self.is_problem(),
    {
        match self {
            DirStep::Accept => false,
            _ => true,
        }
    }

    /// Whether the caller is to try to create the directory.
    pub fn creates(&self) -> (b: bool)
        ensures
            b == self.wants_creation(),
    {
        match self {
            DirStep::CreateAndReport => true,
            _ => false,
        }
    }

    /// The level at which the step is reported.
    pub fn severity(&self) -> (level: Severity)
        ensures
            level == self.level(),
    {
        if self.problem() {
            Severity::Warn
        } else {
            Severity::Trace
        }
    }
}

/// The step that answers `status`, with or without leave to create.
pub open spec fn step_for(status: PathStatus, file_creation: bool) -> DirStep {
    match status {
        PathStatus::Directory => DirStep::Accept,
        PathStatus::NotDirectory => DirStep::ReportNotDirectory,
        PathStatus::Missing => if file_creation {
            DirStep::CreateAndReport
        } else {
            DirStep::ReportMissing
        },
    }
}

/// The steps for a whole list of required paths, one per path, in order.
pub open spec fn planned_steps(statuses: Seq<PathStatus>, file_creation: bool) -> Seq<DirStep> {
    Seq::new(statuses.len(), |i: int| step_for(statuses[i], file_creation))
}

/// What stands at a required path once the caller has carried its step out,
/// as long as nothing else changes the disk meanwhile. `created` says whether
/// the creation went through; it counts only for a step that asks for one.
pub open spec fn status_after(status: PathStatus, step: DirStep, created: bool) -> PathStatus {
    if step.wants_creation() && created {
        PathStatus::Directory
    } else {
        status
    }
}

/// The layout is complete where a directory stands at every required path.
pub open spec fn layout_complete(statuses: Seq<PathStatus>) -> bool {
    forall|i: int| 0 <= i < statuses.len() ==> statuses[i] == PathStatus::Directory
}

/// The error that an incomplete layout is reported with.
pub const LAYOUT_INCOMPLETE: &'static str =
    "There are core directories missing, the program won't run with out them.";

/// The outcome of a layout check.
#[derive(Debug, PartialEq, Eq)]
pub struct LayoutReport {
    /// One step per required path, in the order of the paths.
    pub steps: Vec<DirStep>,
    /// `Ok` where the layout was complete when it was looked at.
    pub outcome: Result<(), &'static str>,
}

/// The directories that must exist, parents before children.
pub fn required_dirs() -> (dirs: Vec<&'static str>)
    ensures
        dirs@.len() == 3,
        dirs@[0]@ == "./core"@,
        dirs@[1]@ == "./core/version"@,
        dirs@[2]@ == "./core/plugins"@,
{
    let mut dirs: Vec<&'static str> = Vec::new();
    dirs.push("./core");
    dirs.push("./core/version");
    dirs.push("./core/plugins");
    dirs
}

/// Decides what to do about one required path.
///
/// A directory is accepted. Anything else is a problem: a path taken by a
/// non-directory is never touched, and a missing directory is created only
/// with `file_creation`, and reported even then.
pub fn assess_dir(status: PathStatus, file_creation: bool) -> (step: DirStep)
    ensures
        step == step_for(status, file_creation),
{
    match status {
        PathStatus::Directory => DirStep::Accept,
        PathStatus::NotDirectory => DirStep::ReportNotDirectory,
        PathStatus::Missing => {
            if file_creation {
                DirStep::CreateAndReport
            } else {
                DirStep::ReportMissing
            }
        },
    }
}

/// Checks the required directories, given what stands at each path.
///
/// Every path is assessed, also after the first problem. The check succeeds
/// only where no path gave a problem, so a directory that is created on the
/// way still fails the call that found it missing.
pub fn check_core_dirs(file_creation: bool, statuses: &Vec<PathStatus>) -> (report: LayoutReport)
    ensures
        report.steps@ == planned_steps(statuses@, file_creation),
        report.outcome is Ok <==> layout_complete(statuses@),
        report.outcome matches Err(msg) ==> msg@ == LAYOUT_INCOMPLETE@,
{
    let mut steps: Vec<DirStep> = Vec::new();
    let mut errors_out = false;
    let mut i: usize = 0;
    while i < statuses.len()
        invariant
            i <= statuses@.len(),
            steps@ == planned_steps(statuses@.take(i as int), file_creation),
            !errors_out <==> layout_complete(statuses@.take(i as int)),
        decreases statuses@.len() - i,
    {
        let step = assess_dir(statuses[i], file_creation);
        if step.problem() {
            errors_out = true;
        }
        steps.push(step);
        proof {
            let before = statuses@.take(i as int);
            let after = statuses@.take(i + 1);
            assert(after == before.push(statuses@[i as int]));
            assert(forall|j: int| 0 <= j < before.len() ==> before[j] == after[j]);
            assert(after[i as int] == statuses@[i as int]);
        }
        i += 1;
    }
    assert(statuses@.take(i as int) == statuses@);
    let outcome = if errors_out {
        Err(LAYOUT_INCOMPLETE)
    } else {
        Ok(())
    };
    LayoutReport { steps, outcome }
}

impl LayoutReport {
    /// The level at which the outcome is reported: an error for an
    /// incomplete layout.
    pub fn severity(&self) -> (level: Severity)
        ensures
            level == if self.outcome is Err {
                Severity::Error
            } else {
                Severity::Trace
            },
    {
        match self.outcome {
            Ok(_) => Severity::Trace,
            Err(_) => Severity::Error,
        }
    }
}

/// A layout in which every required path holds a directory passes the check,
/// with or without leave to create, and no step asks for a write.
pub proof fn lemma_complete_layout_passes_untouched(statuses: Seq<PathStatus>, file_creation: bool)
    requires
        forall|i: int| 0 <= i < statuses.len() ==> statuses[i] == PathStatus::Directory,
    ensures
        layout_complete(statuses),
        forall|i: int|
            0 <= i < statuses.len() ==> planned_steps(statuses, file_creation)[i]
                == DirStep::Accept,
        forall|i: int|
            0 <= i < statuses.len() ==> !planned_steps(statuses, file_creation)[i].wants_creation(),
        forall|i: int, created: bool|
            0 <= i < statuses.len() ==> #[trigger] status_after(
                statuses[i],
                planned_steps(statuses, file_creation)[i],
                created,
            ) == PathStatus::Directory,
{
}

/// With leave to create, a missing directory is to be created, and the check
/// fails all the same. Where the creation goes through, a directory stands at
/// the path afterwards.
pub proof fn lemma_missing_dir_created_yet_failed(statuses: Seq<PathStatus>, i: int)
    requires
        0 <= i < statuses.len(),
        statuses[i] == PathStatus::Missing,
    ensures
        planned_steps(statuses, true)[i] == DirStep::CreateAndReport,
        planned_steps(statuses, true)[i].wants_creation(),
        planned_steps(statuses, true)[i].is_problem(),
        !layout_complete(statuses),
        status_after(statuses[i], planned_steps(statuses, true)[i], true) == PathStatus::Directory,
{
}

/// Without leave to create, a missing directory fails the check and is left
/// missing: its step asks for no write.
pub proof fn lemma_missing_dir_left_absent(statuses: Seq<PathStatus>, i: int)
    requires
        0 <= i < statuses.len(),
        statuses[i] == PathStatus::Missing,
    ensures
        planned_steps(statuses, false)[i] == DirStep::ReportMissing,
        !planned_steps(statuses, false)[i].wants_creation(),
        !layout_complete(statuses),
        forall|created: bool|
            #[trigger] status_after(statuses[i], planned_steps(statuses, false)[i], created)
                == PathStatus::Missing,
{
}

/// A required path that is taken by a non-directory fails the check, with or
/// without leave to create, and its step asks for no write.
pub proof fn lemma_non_directory_fails_untouched(
    statuses: Seq<PathStatus>,
    i: int,
    file_creation: bool,
)
    requires
        0 <= i < statuses.len(),
        statuses[i] == PathStatus::NotDirectory,
    ensures
        planned_steps(statuses, file_creation)[i] == DirStep::ReportNotDirectory,
        !planned_steps(statuses, file_creation)[i].wants_creation(),
        !layout_complete(statuses),
        forall|created: bool|
            #[trigger] status_after(statuses[i], planned_steps(statuses, file_creation)[i], created)
                == PathStatus::NotDirectory,
{
}

/// A layout in which directories are missing and no path is taken by
/// something else heals in one check with leave to create, if every creation
/// goes through: that check fails where anything was missing, and the next
/// one passes and asks for no write.
pub proof fn lemma_healed_layout_passes(statuses: Seq<PathStatus>)
    requires
        forall|i: int| 0 <= i < statuses.len() ==> statuses[i] != PathStatus::NotDirectory,
    ensures
        ({
            let healed = Seq::new(
                statuses.len(),
                |i: int| status_after(statuses[i], planned_steps(statuses, true)[i], true),
            );
            &&& layout_complete(healed)
            &&& forall|i: int|
                0 <= i < healed.len() ==> planned_steps(healed, true)[i] == DirStep::Accept
            &&& (exists|i: int| 0 <= i < statuses.len() && statuses[i] == PathStatus::Missing)
                ==> !layout_complete(statuses)
        }),
{
}

/// A write is asked for exactly where a directory is missing and there is
/// leave to create it; and a step is a problem exactly where no directory
/// stands at its path, so the check passes exactly where no step is one.
pub proof fn lemma_writes_and_problems(statuses: Seq<PathStatus>, file_creation: bool)
    ensures
        planned_steps(statuses, file_creation).len() == statuses.len(),
        forall|i: int|
            0 <= i < statuses.len() ==> (planned_steps(statuses, file_creation)[i].wants_creation()
                <==> file_creation && statuses[i] == PathStatus::Missing),
        forall|i: int|
            0 <= i < statuses.len() ==> (planned_steps(statuses, file_creation)[i].is_problem()
                <==> statuses[i] != PathStatus::Directory),
        layout_complete(statuses) <==> forall|i: int|
            0 <= i < statuses.len() ==> !planned_steps(statuses, file_creation)[i].is_problem(),
{
    if layout_complete(statuses) {
        assert forall|i: int| 0 <= i < statuses.len() implies !planned_steps(
            statuses,
            file_creation,
        )[i].is_problem() by {}
    }
    if forall|i: int|
        0 <= i < statuses.len() ==> !planned_steps(statuses, file_creation)[i].is_problem() {
        assert forall|i: int| 0 <= i < statuses.len() implies statuses[i]
            == PathStatus::Directory by {
            assert(!planned_steps(statuses, file_creation)[i].is_problem());
        }
    }
}

} // verus!
