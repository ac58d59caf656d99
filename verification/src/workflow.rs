//! The two install workflows as explicit step plans, and the driver state
//! machine that hands the steps out in order and halts at the first failure.
//!
//! The surrounding binary performs each handed-out step (network fetch,
//! file write, archive extraction, process launch) and reports its outcome
//! back; every decision about what happens next is made here.

use vstd::prelude::*;
use vstd::string::StringExecFns;
use crate::errors::InstallError;
use crate::platform::{Os, spec_launcher_name};
use crate::resolve::{
    ResolvedArtifact, application_file_names, application_url, joined_path, join_path,
    resolve_application, resolve_runtime, runtime_archive_name, runtime_url,
};

verus! {

/// One step of an install workflow, with every path and URL already
/// resolved. The binary performs these; it decides nothing.
#[derive(Clone, Debug)]
pub enum Action {
    /// Download the given URL into memory.
    Fetch { url: String },
    /// Write the most recently fetched payload to this path, creating the
    /// file or truncating one left by an earlier run.
    WriteFile { path: String },
    /// Unpack the archive at this path into the destination directory,
    /// inferring the format from the file extension.
    ExtractArchive { archive_path: String, destination: String },
    /// Delete the file at this path.
    DeleteFile { path: String },
    /// Spawn the executable at this path and wait for it to exit.
    RunProcess { path: String },
}

/// The mathematical image of an Action: the same step over character
/// sequences.
pub enum ActionModel {
    Fetch { url: Seq<char> },
    WriteFile { path: Seq<char> },
    ExtractArchive { archive_path: Seq<char>, destination: Seq<char> },
    DeleteFile { path: Seq<char> },
    RunProcess { path: Seq<char> },
}

impl View for Action {
    type V = ActionModel;

    open spec fn view(&self) -> ActionModel {
        match self {
            Action::Fetch { url } => ActionModel::Fetch { url: url@ },
            Action::WriteFile { path } => ActionModel::WriteFile { path: path@ },
            Action::ExtractArchive { archive_path, destination } => ActionModel::ExtractArchive {
                archive_path: archive_path@,
                destination: destination@,
            },
            Action::DeleteFile { path } => ActionModel::DeleteFile { path: path@ },
            Action::RunProcess { path } => ActionModel::RunProcess { path: path@ },
        }
    }
}

/// The fetch-then-write pair that materializes one artifact.
pub open spec fn artifact_steps(url: Seq<char>, dest: Seq<char>) -> Seq<ActionModel> {
    seq![ActionModel::Fetch { url }, ActionModel::WriteFile { path: dest }]
}

/// The runtime workflow's plan: fetch the archive, write it next to the
/// target directory, extract it there, delete it, and on Windows only run
/// the redistributable installer that the archive delivered.
pub open spec fn spec_runtime_plan(version: Seq<char>, dir: Seq<char>, os: Os) -> Seq<
    ActionModel,
> {
    let archive = joined_path(dir, runtime_archive_name(version, os));
    let base = seq![
        ActionModel::Fetch { url: runtime_url(version, os) },
        ActionModel::WriteFile { path: archive },
        ActionModel::ExtractArchive { archive_path: archive, destination: dir },
        ActionModel::DeleteFile { path: archive },
    ];
    if os is Windows {
        base.push(ActionModel::RunProcess { path: joined_path(dir, "vc_redist.x64.exe"@) })
    } else {
        base
    }
}

/// The application workflow's plan: fetch and write the payload, then fetch
/// and write each platform start script.
pub open spec fn spec_application_plan(version: Seq<char>, dir: Seq<char>, os: Os) -> Seq<
    ActionModel,
> {
    let names = application_file_names(os);
    let payload = artifact_steps(application_url(version, names[0]), joined_path(dir, names[0]))
        + artifact_steps(application_url(version, names[1]), joined_path(dir, names[1]));
    if os is Windows {
        payload + artifact_steps(application_url(version, names[2]), joined_path(dir, names[2]))
    } else {
        payload
    }
}

/// Build the runtime workflow's plan.
pub fn runtime_plan(version: &str, dir: &str, os: Os) -> (plan: Vec<Action>)
    ensures
        plan@.len() == spec_runtime_plan(version@, dir@, os).len(),
        forall|i: int| 0 <= i < plan@.len() ==> (#[trigger] plan@[i])@ == spec_runtime_plan(
            version@,
            dir@,
            os,
        )[i],
{
    let artifact: ResolvedArtifact = resolve_runtime(version, os);
    let archive_path: String = join_path(dir, artifact.local_file_name.as_str());
    let mut plan: Vec<Action> = Vec::new();
    plan.push(Action::Fetch { url: artifact.url });
    plan.push(Action::WriteFile { path: archive_path.clone() });
    plan.push(
        Action::ExtractArchive {
            archive_path: archive_path.clone(),
            destination: String::from_str(dir),
        },
    );
    plan.push(Action::DeleteFile { path: archive_path });
    if let Os::Windows = os {
        plan.push(Action::RunProcess { path: join_path(dir, "vc_redist.x64.exe") });
    }
    plan
}

/// Build the application workflow's plan.
pub fn application_plan(version: &str, dir: &str, os: Os) -> (plan: Vec<Action>)
    ensures
        plan@.len() == spec_application_plan(version@, dir@, os).len(),
        forall|i: int| 0 <= i < plan@.len() ==> (#[trigger] plan@[i])@ == spec_application_plan(
            version@,
            dir@,
            os,
        )[i],
{
    let artifacts: Vec<ResolvedArtifact> = resolve_application(version, os);
    proof {
        assert(application_file_names(os).len() == (if os is Windows {
            3int
        } else {
            2int
        }));
    }
    let mut plan: Vec<Action> = Vec::new();
    let a0 = &artifacts[0];
    plan.push(Action::Fetch { url: a0.url.clone() });
    plan.push(Action::WriteFile { path: join_path(dir, a0.local_file_name.as_str()) });
    let a1 = &artifacts[1];
    plan.push(Action::Fetch { url: a1.url.clone() });
    plan.push(Action::WriteFile { path: join_path(dir, a1.local_file_name.as_str()) });
    if artifacts.len() == 3 {
        let a2 = &artifacts[2];
        plan.push(Action::Fetch { url: a2.url.clone() });
        plan.push(Action::WriteFile { path: join_path(dir, a2.local_file_name.as_str()) });
    }
    proof {
        let sp = spec_application_plan(version@, dir@, os);
        let names = application_file_names(os);
        if os is Windows {
            assert(plan@[0]@ == sp[0]);
            assert(plan@[1]@ == sp[1]);
            assert(plan@[2]@ == sp[2]);
            assert(plan@[3]@ == sp[3]);
            assert(plan@[4]@ == sp[4]);
            assert(plan@[5]@ == sp[5]);
        } else {
            assert(plan@[0]@ == sp[0]);
            assert(plan@[1]@ == sp[1]);
            assert(plan@[2]@ == sp[2]);
            assert(plan@[3]@ == sp[3]);
        }
    }
    plan
}

/// Drives one workflow: hands the planned steps out in order and halts for
/// good at the first reported failure.
pub struct Workflow {
    pub plan: Vec<Action>,
    pub next_index: usize,
    pub failure: Option<InstallError>,
}

impl Workflow {
    /// The driver never points past the end of its plan.
    pub open spec fn wf(&self) -> bool {
        self.next_index <= self.plan@.len()
    }

    /// The step the driver hands out in this state, if any.
    pub open spec fn spec_next_action(&self) -> Option<ActionModel> {
        if self.failure is None && self.next_index < self.plan@.len() {
            Some(self.plan@[self.next_index as int]@)
        } else {
            None
        }
    }

    /// Start a workflow at the beginning of its plan.
    pub fn new(plan: Vec<Action>) -> (w: Workflow)
        ensures
            w.wf(),
            w.plan == plan,
            w.next_index == 0,
            w.failure is None,
    {
        Workflow { plan, next_index: 0, failure: None }
    }

    /// The next step to perform, or None once the workflow has finished or
    /// failed.
    pub fn next_action(&self) -> (a: Option<&Action>)
        requires
            self.wf(),
        ensures
            a matches Some(act) ==> self.spec_next_action() == Some(act@),
            a is None <==> self.spec_next_action() is None,
    {
        if self.failure.is_none() && self.next_index < self.plan.len() {
            Some(&self.plan[self.next_index])
        } else {
            None
        }
    }

    /// Record the outcome of the step just performed: advance on success,
    /// halt permanently on failure.
    pub fn report(&mut self, outcome: Result<(), InstallError>)
        requires
            old(self).wf(),
            old(self).failure is None,
            old(self).next_index < old(self).plan@.len(),
        ensures
            final(self).wf(),
            final(self).plan == old(self).plan,
            outcome is Ok ==> final(self).next_index == old(self).next_index + 1,
            outcome is Ok ==> final(self).failure is None,
            outcome matches Err(e) ==> final(self).failure == Some(e) && final(self).next_index
                == old(self).next_index,
            outcome is Err ==> final(self).spec_next_action() is None,
    {
        // next_index stays below the plan's length, which fits in usize,
        // so the increment below cannot overflow.
        let _plan_len: usize = self.plan.len();
        match outcome {
            Ok(()) => {
                self.next_index = self.next_index + 1;
            },
            Err(e) => {
                self.failure = Some(e);
            },
        }
    }

    /// The workflow's terminal result: its first failure, or success when
    /// every step went through.
    pub fn outcome(&self) -> (r: Result<(), InstallError>)
        ensures
            self.failure matches Some(e) ==> r == Err::<(), InstallError>(e),
            self.failure is None ==> r == Ok::<(), InstallError>(()),
    {
        match self.failure {
            Some(e) => Err(e),
            None => Ok(()),
        }
    }
}

/// The steps a first-failure-aborts driver actually performs: the plan
/// prefix up to and including the first step whose outcome is a failure.
pub open spec fn spec_executed_prefix(plan: Seq<ActionModel>, ok: Seq<bool>) -> Seq<ActionModel>
    decreases plan.len(),
{
    if plan.len() == 0 || ok.len() == 0 {
        Seq::empty()
    } else if !ok[0] {
        seq![plan[0]]
    } else {
        seq![plan[0]] + spec_executed_prefix(plan.drop_first(), ok.drop_first())
    }
}

/// Law: in the runtime plan, every archive-deletion step comes strictly
/// after every extraction step.
pub proof fn lemma_delete_follows_extract(version: Seq<char>, dir: Seq<char>, os: Os)
    ensures
        forall|i: int, j: int|
            0 <= i < spec_runtime_plan(version, dir, os).len() && 0 <= j < spec_runtime_plan(
                version,
                dir,
                os,
            ).len() && (#[trigger] spec_runtime_plan(version, dir, os)[i]) is ExtractArchive && (
            #[trigger] spec_runtime_plan(version, dir, os)[j]) is DeleteFile ==> i < j,
{
    let plan = spec_runtime_plan(version, dir, os);
    assert forall|i: int, j: int|
        0 <= i < plan.len() && 0 <= j < plan.len() && plan[i] is ExtractArchive
            && plan[j] is DeleteFile implies i < j by {
        assert(plan[i] is ExtractArchive ==> i == 2);
        assert(plan[j] is DeleteFile ==> j == 3);
    }
}

/// Law: if the extraction step of the runtime workflow fails, the
/// archive-deletion step is never executed, so the downloaded archive file
/// survives for the user to inspect.
pub proof fn lemma_failed_extraction_keeps_archive(
    version: Seq<char>,
    dir: Seq<char>,
    os: Os,
    ok: Seq<bool>,
)
    requires
        ok.len() >= 3,
        ok[0],
        ok[1],
        !ok[2],
    ensures
        forall|a: ActionModel|
            spec_executed_prefix(spec_runtime_plan(version, dir, os), ok).contains(a)
                ==> !(a is DeleteFile),
{
    let plan = spec_runtime_plan(version, dir, os);
    let p1 = plan.drop_first();
    let p2 = p1.drop_first();
    let o1 = ok.drop_first();
    let o2 = o1.drop_first();
    assert(!o2[0]);
    assert(spec_executed_prefix(p2, o2) =~= seq![plan[2]]);
    assert(spec_executed_prefix(p1, o1) =~= seq![plan[1], plan[2]]);
    assert(spec_executed_prefix(plan, ok) =~= seq![plan[0], plan[1], plan[2]]);
    assert(plan[0] is Fetch);
    assert(plan[1] is WriteFile);
    assert(plan[2] is ExtractArchive);
}

/// The Windows-only redistributable step's executable path.
pub fn redistributable_path(dir: &str) -> (r: String)
    ensures
        r@ == joined_path(dir@, "vc_redist.x64.exe"@),
{
    join_path(dir, "vc_redist.x64.exe")
}

/// The launcher's start-script path for this platform.
pub fn launcher_path(dir: &str, os: Os) -> (r: String)
    ensures
        r@ == joined_path(dir@, spec_launcher_name(os)),
{
    match os {
        Os::Windows => join_path(dir, "start.cmd"),
        Os::MacOs => join_path(dir, "start.sh"),
        Os::Other => join_path(dir, "start.sh"),
    }
}

} // verus!
