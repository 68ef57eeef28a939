//! Carries a plan out, one action at a time.
//!
//! A [`Workflow`] holds the operations that are still to come and the phase
//! of the one that is under way. [`begin`] starts the first operation;
//! [`Workflow::advance`] takes the driver's answer to the last action and
//! gives the next one. The first failure ends the workflow: nothing is
//! retried and nothing is undone.

use crate::config::{
    text_view, Architecture, GeneratedL2Config, GeneratedL2ConfigView, L1Config, L1ConfigView,
    L2Source, L2SourceView,
};
use crate::error::{WorkflowError, WorkflowErrorView};
use crate::generator::{
    amend_l2, build_l1, build_l2, l1_source_view, source_view, spec_amend_l2, spec_build_l1,
    spec_build_l2,
};
use crate::layout::{
    inner_env, spec_inner_env, EnvDir, RemoteCommand, RemoteFile, ScriptKind,
};
use crate::plan::{
    operation_views, plan_create, plan_provision, plan_run_bench,
    spec_plan_create, spec_plan_provision, spec_plan_run_bench, CreateRequest, Operation,
    OperationView, ProvisionRequest, RunBenchRequest,
};
use crate::protocol::{spec_succeeded, succeeded, Action, ActionView, Event, EventView};
use vstd::prelude::*;

verus! {

/// What the operation under way is waiting for.
#[derive(Clone, Debug, PartialEq, Eq)]
#[allow(inconsistent_fields)]
pub enum Phase {
    /// Creating a directory: whether it exists already.
    Probing { env: EnvDir, overwrite: bool },
    /// Creating a directory: the removal of the old one.
    Removing { env: EnvDir },
    /// Creating a directory: the empty directory.
    Making { env: EnvDir },
    /// The last action of an operation. Once it is done the next operation
    /// starts.
    Settling,
    /// Writing the outer layer's document: where the inner layer's
    /// directory is.
    LocatingInner { source: Option<L1Config>, arch: Architecture },
    /// Writing the single machine's document: where its benchmark script
    /// is.
    LocatingScript { source: Option<L2Source>, provision_script: bool },
    /// Amending the single machine's document: where its benchmark script
    /// is.
    LocatingAmendment { provision_script: bool },
    /// Amending a document: what is stored.
    Loading { bench_script: Option<String>, provision_script: bool, nested: bool },
    /// A lifecycle command whose status alone counts. On success the next
    /// operation starts.
    Running,
    /// The benchmark in the inner machine.
    NestedBenchRunning { output: Option<String> },
    /// The results of the benchmark in the inner machine.
    Fetching { output: Option<String> },
    /// The benchmark in the single machine.
    BenchRunning { output: Option<String> },
    /// The workflow has failed and only shows why before it ends.
    Failing { error: WorkflowError },
}

#[allow(inconsistent_fields)]
pub enum PhaseView {
    Probing { env: EnvDir, overwrite: bool },
    Removing { env: EnvDir },
    Making { env: EnvDir },
    Settling,
    LocatingInner { source: Option<L1ConfigView>, arch: Architecture },
    LocatingScript { source: Option<L2SourceView>, provision_script: bool },
    LocatingAmendment { provision_script: bool },
    Loading { bench_script: Option<Seq<char>>, provision_script: bool, nested: bool },
    Running,
    NestedBenchRunning { output: Option<Seq<char>> },
    Fetching { output: Option<Seq<char>> },
    BenchRunning { output: Option<Seq<char>> },
    Failing { error: WorkflowErrorView },
}

impl View for Phase {
    type V = PhaseView;

    open spec fn view(&self) -> PhaseView {
        match self {
            Phase::Probing { env, overwrite } => PhaseView::Probing {
                env: *env,
                overwrite: *overwrite,
            },
            Phase::Removing { env } => PhaseView::Removing { env: *env },
            Phase::Making { env } => PhaseView::Making { env: *env },
            Phase::Settling => PhaseView::Settling,
            Phase::LocatingInner { source, arch } => PhaseView::LocatingInner {
                source: l1_source_view(*source),
                arch: *arch,
            },
            Phase::LocatingScript { source, provision_script } => PhaseView::LocatingScript {
                source: source_view(*source),
                provision_script: *provision_script,
            },
            Phase::LocatingAmendment { provision_script } => PhaseView::LocatingAmendment {
                provision_script: *provision_script,
            },
            Phase::Loading { bench_script, provision_script, nested } => PhaseView::Loading {
                bench_script: text_view(*bench_script),
                provision_script: *provision_script,
                nested: *nested,
            },
            Phase::Running => PhaseView::Running,
            Phase::NestedBenchRunning { output } => PhaseView::NestedBenchRunning {
                output: text_view(*output),
            },
            Phase::Fetching { output } => PhaseView::Fetching { output: text_view(*output) },
            Phase::BenchRunning { output } => PhaseView::BenchRunning {
                output: text_view(*output),
            },
            Phase::Failing { error } => PhaseView::Failing { error: error@ },
        }
    }
}

/// A workflow between two actions.
#[derive(Clone, Debug, PartialEq, Eq)]
pub struct Workflow {
    /// The operations that have not started yet, the next one first.
    pub pending: Vec<Operation>,
    /// What the operation under way is waiting for.
    pub phase: Phase,
}

pub struct WorkflowView {
    pub pending: Seq<OperationView>,
    pub phase: PhaseView,
}

impl View for Workflow {
    type V = WorkflowView;

    open spec fn view(&self) -> WorkflowView {
        WorkflowView { pending: operation_views(self.pending@), phase: self.phase@ }
    }
}

/// Where a workflow stands after a step: it asks for an action, or it is
/// over.
#[derive(Debug, PartialEq, Eq)]
pub enum Progress {
    Continue { workflow: Workflow, action: Action },
    Done { outcome: Result<(), WorkflowError> },
}

pub enum ProgressView {
    Continue { workflow: WorkflowView, action: ActionView },
    Done { outcome: Result<(), WorkflowErrorView> },
}

/// The view of a workflow's outcome.
pub open spec fn outcome_view(outcome: Result<(), WorkflowError>) -> Result<
    (),
    WorkflowErrorView,
> {
    match outcome {
        Ok(_) => Ok(()),
        Err(error) => Err(error@),
    }
}

impl View for Progress {
    type V = ProgressView;

    open spec fn view(&self) -> ProgressView {
        match self {
            Progress::Continue { workflow, action } => ProgressView::Continue {
                workflow: workflow@,
                action: action@,
            },
            Progress::Done { outcome } => ProgressView::Done { outcome: outcome_view(*outcome) },
        }
    }
}

/// The workflow goes on: it waits in `phase` for the answer to `action`.
pub open spec fn spec_wait(
    pending: Seq<OperationView>,
    phase: PhaseView,
    action: ActionView,
) -> ProgressView {
    ProgressView::Continue { workflow: WorkflowView { pending, phase }, action }
}

/// The workflow ends with `error`.
pub open spec fn spec_fail(error: WorkflowErrorView) -> ProgressView {
    ProgressView::Done { outcome: Err(error) }
}

/// How a workflow ends on an answer that does not fit the action it asked
/// for: the action counts as failed, with nothing to say about why.
pub open spec fn spec_misfit() -> ProgressView {
    spec_fail(WorkflowErrorView::FilesystemError { reason: Seq::empty() })
}

/// Starts an operation: the first action it asks for and the phase in
/// which it waits for the answer. `rest` holds the operations after it.
///
/// A document of the single machine that names a benchmark script needs
/// the script's canonical path, so the script is located first. In the
/// two-layer mode the path is fixed and nothing is located.
pub open spec fn spec_start(op: OperationView, rest: Seq<OperationView>) -> ProgressView {
    match op {
        OperationView::CreateEnvironment { env, overwrite } => spec_wait(
            rest,
            PhaseView::Probing { env, overwrite },
            ActionView::ProbeDirectory { env },
        ),
        OperationView::Resync { env } => spec_wait(
            rest,
            PhaseView::Settling,
            ActionView::CopyTemplate { template: env.spec_template(), env, overwrite: true },
        ),
        OperationView::InjectScript { env, script, source } => spec_wait(
            rest,
            PhaseView::Settling,
            ActionView::CopyScript { source, env, script },
        ),
        OperationView::GenerateL1 { source, arch } => spec_wait(
            rest,
            PhaseView::LocatingInner { source, arch },
            ActionView::ResolveDirectory { env: EnvDir::L2 },
        ),
        OperationView::GenerateL2 { source, bench_script, provision_script, nested } => {
            if !nested && bench_script is Some {
                spec_wait(
                    rest,
                    PhaseView::LocatingScript { source, provision_script },
                    ActionView::ResolveScript {
                        env: EnvDir::Standalone,
                        script: ScriptKind::Bench,
                    },
                )
            } else {
                spec_wait(
                    rest,
                    PhaseView::Settling,
                    ActionView::WriteL2Config {
                        env: spec_inner_env(nested),
                        document: spec_build_l2(source, bench_script, provision_script, nested),
                    },
                )
            }
        },
        OperationView::AmendL2 { bench_script, provision_script, nested } => {
            if !nested && bench_script is Some {
                spec_wait(
                    rest,
                    PhaseView::LocatingAmendment { provision_script },
                    ActionView::ResolveScript {
                        env: EnvDir::Standalone,
                        script: ScriptKind::Bench,
                    },
                )
            } else {
                spec_wait(
                    rest,
                    PhaseView::Loading { bench_script, provision_script, nested },
                    ActionView::ReadL2Config { env: spec_inner_env(nested) },
                )
            }
        },
        OperationView::Boot { env } => spec_wait(
            rest,
            PhaseView::Running,
            ActionView::Boot { env },
        ),
        OperationView::Reload { env } => spec_wait(
            rest,
            PhaseView::Running,
            ActionView::Reload { env },
        ),
        OperationView::ReloadWithProvision { env } => spec_wait(
            rest,
            PhaseView::Running,
            ActionView::ReloadWithProvision { env },
        ),
        OperationView::StartInner => spec_wait(
            rest,
            PhaseView::Running,
            ActionView::RemoteExec { env: EnvDir::L1, command: RemoteCommand::StartInner },
        ),
        OperationView::NestedBench { output } => spec_wait(
            rest,
            PhaseView::NestedBenchRunning { output },
            ActionView::RemoteExec { env: EnvDir::L1, command: RemoteCommand::NestedBench },
        ),
        OperationView::Bench { output } => spec_wait(
            rest,
            PhaseView::BenchRunning { output },
            ActionView::RemoteCapture { env: EnvDir::Standalone, command: RemoteCommand::Bench },
        ),
    }
}

/// Starts the next operation of a plan, or ends the workflow with success
/// where none is left.
pub open spec fn spec_begin(pending: Seq<OperationView>) -> ProgressView {
    if pending.len() == 0 {
        ProgressView::Done { outcome: Ok(()) }
    } else {
        spec_start(pending[0], pending.drop_first())
    }
}

/// Hands the results over: into the file where one was named, else to the
/// standard output.
pub open spec fn spec_deliver(
    pending: Seq<OperationView>,
    bytes: Seq<u8>,
    output: Option<Seq<char>>,
) -> ProgressView {
    match output {
        Some(path) => spec_wait(pending, PhaseView::Settling, ActionView::Persist { path, bytes }),
        None => spec_wait(pending, PhaseView::Settling, ActionView::Print { bytes }),
    }
}

/// The step on `Completed`.
pub open spec fn spec_on_completed(workflow: WorkflowView) -> ProgressView {
    match workflow.phase {
        PhaseView::Removing { env } => spec_wait(
            workflow.pending,
            PhaseView::Making { env },
            ActionView::CreateDirectory { env },
        ),
        PhaseView::Making { env } => spec_wait(
            workflow.pending,
            PhaseView::Settling,
            ActionView::CopyTemplate { template: env.spec_template(), env, overwrite: false },
        ),
        PhaseView::Settling => spec_begin(workflow.pending),
        _ => spec_misfit(),
    }
}

/// The step on `Probed`: a free place is filled, an occupied one is
/// cleared first where it may be overwritten, and ends the workflow where
/// it may not.
pub open spec fn spec_on_probed(workflow: WorkflowView, exists: bool) -> ProgressView {
    match workflow.phase {
        PhaseView::Probing { env, overwrite } => {
            if !exists {
                spec_wait(
                    workflow.pending,
                    PhaseView::Making { env },
                    ActionView::CreateDirectory { env },
                )
            } else if overwrite {
                spec_wait(
                    workflow.pending,
                    PhaseView::Removing { env },
                    ActionView::RemoveDirectory { env },
                )
            } else {
                spec_fail(WorkflowErrorView::EnvironmentAlreadyExists { env })
            }
        },
        _ => spec_misfit(),
    }
}

/// The step on `Resolved`.
pub open spec fn spec_on_resolved(workflow: WorkflowView, path: Seq<char>) -> ProgressView {
    match workflow.phase {
        PhaseView::LocatingInner { source, arch } => spec_wait(
            workflow.pending,
            PhaseView::Settling,
            ActionView::WriteL1Config {
                env: EnvDir::L1,
                document: spec_build_l1(source, arch, path),
            },
        ),
        PhaseView::LocatingScript { source, provision_script } => spec_wait(
            workflow.pending,
            PhaseView::Settling,
            ActionView::WriteL2Config {
                env: EnvDir::Standalone,
                document: spec_build_l2(source, Some(path), provision_script, false),
            },
        ),
        PhaseView::LocatingAmendment { provision_script } => spec_wait(
            workflow.pending,
            PhaseView::Loading { bench_script: Some(path), provision_script, nested: false },
            ActionView::ReadL2Config { env: EnvDir::Standalone },
        ),
        _ => spec_misfit(),
    }
}

/// The step on `Loaded`.
pub open spec fn spec_on_loaded(
    workflow: WorkflowView,
    document: GeneratedL2ConfigView,
) -> ProgressView {
    match workflow.phase {
        PhaseView::Loading { bench_script, provision_script, nested } => spec_wait(
            workflow.pending,
            PhaseView::Settling,
            ActionView::WriteL2Config {
                env: spec_inner_env(nested),
                document: spec_amend_l2(document, bench_script, provision_script, nested),
            },
        ),
        _ => spec_misfit(),
    }
}

/// The step on `Exited`. Any status but zero ends the workflow. A failed
/// benchmark in the single machine first has its captured output printed.
pub open spec fn spec_on_exited(
    workflow: WorkflowView,
    status: Option<i32>,
    stdout: Seq<u8>,
    stderr: Seq<u8>,
) -> ProgressView {
    match workflow.phase {
        PhaseView::Running => {
            if spec_succeeded(status) {
                spec_begin(workflow.pending)
            } else {
                spec_fail(WorkflowErrorView::ExternalToolFailure { status })
            }
        },
        PhaseView::NestedBenchRunning { output } => {
            if spec_succeeded(status) {
                spec_wait(
                    workflow.pending,
                    PhaseView::Fetching { output },
                    ActionView::RemoteRead { env: EnvDir::L1, file: RemoteFile::BenchResults },
                )
            } else {
                spec_fail(WorkflowErrorView::ExternalToolFailure { status })
            }
        },
        PhaseView::Fetching { output } => {
            if spec_succeeded(status) {
                spec_deliver(workflow.pending, stdout, output)
            } else {
                spec_fail(WorkflowErrorView::ResultRetrievalFailure { diagnostics: stderr })
            }
        },
        PhaseView::BenchRunning { output } => {
            if spec_succeeded(status) {
                spec_deliver(workflow.pending, stdout, output)
            } else {
                spec_wait(
                    workflow.pending,
                    PhaseView::Failing {
                        error: WorkflowErrorView::ExternalToolFailure { status },
                    },
                    ActionView::Print { bytes: stdout },
                )
            }
        },
        _ => spec_misfit(),
    }
}

/// One step of a workflow: from the state it waits in and the driver's
/// answer to the next action, or to the end.
///
/// A workflow that has failed already ends with its error whatever the
/// answer is. `Failed` and `Malformed` end a workflow in every other phase.
pub open spec fn spec_advance(workflow: WorkflowView, event: EventView) -> ProgressView {
    match workflow.phase {
        PhaseView::Failing { error } => spec_fail(error),
        _ => match event {
            EventView::Failed { reason } => spec_fail(
                WorkflowErrorView::FilesystemError { reason },
            ),
            EventView::Malformed { reason } => spec_fail(
                WorkflowErrorView::ConfigParseError { reason },
            ),
            EventView::Completed => spec_on_completed(workflow),
            EventView::Probed { exists } => spec_on_probed(workflow, exists),
            EventView::Resolved { path } => spec_on_resolved(workflow, path),
            EventView::Loaded { document } => spec_on_loaded(workflow, document),
            EventView::Exited { status, stdout, stderr } => spec_on_exited(
                workflow,
                status,
                stdout,
                stderr,
            ),
        },
    }
}

/// Ends a workflow on an answer that does not fit.
fn misfit() -> (progress: Progress)
    ensures
        progress@ == spec_misfit(),
{
    Progress::Done { outcome: Err(WorkflowError::FilesystemError { reason: String::new() }) }
}

/// Starts the next operation of a plan, or ends the workflow with success
/// where none is left.
pub fn begin(pending: Vec<Operation>) -> (progress: Progress)
    ensures
        progress@ == spec_begin(operation_views(pending@)),
{
    let mut pending = pending;
    if pending.len() == 0 {
        return Progress::Done { outcome: Ok(()) };
    }
    let ghost all = pending@;
    let op = pending.remove(0);
    assert(operation_views(pending@) =~= operation_views(all).drop_first());
    assert(op@ == operation_views(all)[0]);
    match op {
        Operation::CreateEnvironment { env, overwrite } => Progress::Continue {
            workflow: Workflow { pending, phase: Phase::Probing { env, overwrite } },
            action: Action::ProbeDirectory { env },
        },
        Operation::Resync { env } => Progress::Continue {
            workflow: Workflow { pending, phase: Phase::Settling },
            action: Action::CopyTemplate { template: env.template(), env, overwrite: true },
        },
        Operation::InjectScript { env, script, source } => Progress::Continue {
            workflow: Workflow { pending, phase: Phase::Settling },
            action: Action::CopyScript { source, env, script },
        },
        Operation::GenerateL1 { source, arch } => Progress::Continue {
            workflow: Workflow { pending, phase: Phase::LocatingInner { source, arch } },
            action: Action::ResolveDirectory { env: EnvDir::L2 },
        },
        Operation::GenerateL2 { source, bench_script, provision_script, nested } => {
            if !nested && bench_script.is_some() {
                Progress::Continue {
                    workflow: Workflow {
                        pending,
                        phase: Phase::LocatingScript { source, provision_script },
                    },
                    action: Action::ResolveScript {
                        env: EnvDir::Standalone,
                        script: ScriptKind::Bench,
                    },
                }
            } else {
                Progress::Continue {
                    workflow: Workflow { pending, phase: Phase::Settling },
                    action: Action::WriteL2Config {
                        env: inner_env(nested),
                        document: build_l2(source, bench_script, provision_script, nested),
                    },
                }
            }
        },
        Operation::AmendL2 { bench_script, provision_script, nested } => {
            if !nested && bench_script.is_some() {
                Progress::Continue {
                    workflow: Workflow {
                        pending,
                        phase: Phase::LocatingAmendment { provision_script },
                    },
                    action: Action::ResolveScript {
                        env: EnvDir::Standalone,
                        script: ScriptKind::Bench,
                    },
                }
            } else {
                Progress::Continue {
                    workflow: Workflow {
                        pending,
                        phase: Phase::Loading { bench_script, provision_script, nested },
                    },
                    action: Action::ReadL2Config { env: inner_env(nested) },
                }
            }
        },
        Operation::Boot { env } => Progress::Continue {
            workflow: Workflow { pending, phase: Phase::Running },
            action: Action::Boot { env },
        },
        Operation::Reload { env } => Progress::Continue {
            workflow: Workflow { pending, phase: Phase::Running },
            action: Action::Reload { env },
        },
        Operation::ReloadWithProvision { env } => Progress::Continue {
            workflow: Workflow { pending, phase: Phase::Running },
            action: Action::ReloadWithProvision { env },
        },
        Operation::StartInner => Progress::Continue {
            workflow: Workflow { pending, phase: Phase::Running },
            action: Action::RemoteExec { env: EnvDir::L1, command: RemoteCommand::StartInner },
        },
        Operation::NestedBench { output } => Progress::Continue {
            workflow: Workflow { pending, phase: Phase::NestedBenchRunning { output } },
            action: Action::RemoteExec { env: EnvDir::L1, command: RemoteCommand::NestedBench },
        },
        Operation::Bench { output } => Progress::Continue {
            workflow: Workflow { pending, phase: Phase::BenchRunning { output } },
            action: Action::RemoteCapture {
                env: EnvDir::Standalone,
                command: RemoteCommand::Bench,
            },
        },
    }
}

/// Hands the results over: into the file where one was named, else to the
/// standard output.
fn deliver(pending: Vec<Operation>, bytes: Vec<u8>, output: Option<String>) -> (progress: Progress)
    ensures
        progress@ == spec_deliver(operation_views(pending@), bytes@, text_view(output)),
{
    match output {
        Some(path) => Progress::Continue {
            workflow: Workflow { pending, phase: Phase::Settling },
            action: Action::Persist { path, bytes },
        },
        None => Progress::Continue {
            workflow: Workflow { pending, phase: Phase::Settling },
            action: Action::Print { bytes },
        },
    }
}

/// The step on `Completed`.
fn on_completed(pending: Vec<Operation>, phase: Phase) -> (progress: Progress)
    ensures
        progress@ == spec_on_completed(
            WorkflowView { pending: operation_views(pending@), phase: phase@ },
        ),
{
    match phase {
        Phase::Removing { env } => Progress::Continue {
            workflow: Workflow { pending, phase: Phase::Making { env } },
            action: Action::CreateDirectory { env },
        },
        Phase::Making { env } => Progress::Continue {
            workflow: Workflow { pending, phase: Phase::Settling },
            action: Action::CopyTemplate { template: env.template(), env, overwrite: false },
        },
        Phase::Settling => begin(pending),
        _ => misfit(),
    }
}

/// The step on `Probed`.
fn on_probed(pending: Vec<Operation>, phase: Phase, exists: bool) -> (progress: Progress)
    ensures
        progress@ == spec_on_probed(
            WorkflowView { pending: operation_views(pending@), phase: phase@ },
            exists,
        ),
{
    match phase {
        Phase::Probing { env, overwrite } => {
            if !exists {
                Progress::Continue {
                    workflow: Workflow { pending, phase: Phase::Making { env } },
                    action: Action::CreateDirectory { env },
                }
            } else if overwrite {
                Progress::Continue {
                    workflow: Workflow { pending, phase: Phase::Removing { env } },
                    action: Action::RemoveDirectory { env },
                }
            } else {
                Progress::Done {
                    outcome: Err(WorkflowError::EnvironmentAlreadyExists { env }),
                }
            }
        },
        _ => misfit(),
    }
}

/// The step on `Resolved`.
fn on_resolved(pending: Vec<Operation>, phase: Phase, path: String) -> (progress: Progress)
    ensures
        progress@ == spec_on_resolved(
            WorkflowView { pending: operation_views(pending@), phase: phase@ },
            path@,
        ),
{
    match phase {
        Phase::LocatingInner { source, arch } => Progress::Continue {
            workflow: Workflow { pending, phase: Phase::Settling },
            action: Action::WriteL1Config {
                env: EnvDir::L1,
                document: build_l1(source, arch, path),
            },
        },
        Phase::LocatingScript { source, provision_script } => Progress::Continue {
            workflow: Workflow { pending, phase: Phase::Settling },
            action: Action::WriteL2Config {
                env: EnvDir::Standalone,
                document: build_l2(source, Some(path), provision_script, false),
            },
        },
        Phase::LocatingAmendment { provision_script } => Progress::Continue {
            workflow: Workflow {
                pending,
                phase: Phase::Loading {
                    bench_script: Some(path),
                    provision_script,
                    nested: false,
                },
            },
            action: Action::ReadL2Config { env: EnvDir::Standalone },
        },
        _ => misfit(),
    }
}

/// The step on `Loaded`.
fn on_loaded(pending: Vec<Operation>, phase: Phase, document: GeneratedL2Config) -> (progress:
    Progress)
    ensures
        progress@ == spec_on_loaded(
            WorkflowView { pending: operation_views(pending@), phase: phase@ },
            document@,
        ),
{
    match phase {
        Phase::Loading { bench_script, provision_script, nested } => Progress::Continue {
            workflow: Workflow { pending, phase: Phase::Settling },
            action: Action::WriteL2Config {
                env: inner_env(nested),
                document: amend_l2(document, bench_script, provision_script, nested),
            },
        },
        _ => misfit(),
    }
}

/// The step on `Exited`.
fn on_exited(
    pending: Vec<Operation>,
    phase: Phase,
    status: Option<i32>,
    stdout: Vec<u8>,
    stderr: Vec<u8>,
) -> (progress: Progress)
    ensures
        progress@ == spec_on_exited(
            WorkflowView { pending: operation_views(pending@), phase: phase@ },
            status,
            stdout@,
            stderr@,
        ),
{
    let ok = succeeded(status);
    match phase {
        Phase::Running => {
            if ok {
                begin(pending)
            } else {
                Progress::Done { outcome: Err(WorkflowError::ExternalToolFailure { status }) }
            }
        },
        Phase::NestedBenchRunning { output } => {
            if ok {
                Progress::Continue {
                    workflow: Workflow { pending, phase: Phase::Fetching { output } },
                    action: Action::RemoteRead {
                        env: EnvDir::L1,
                        file: RemoteFile::BenchResults,
                    },
                }
            } else {
                Progress::Done { outcome: Err(WorkflowError::ExternalToolFailure { status }) }
            }
        },
        Phase::Fetching { output } => {
            if ok {
                deliver(pending, stdout, output)
            } else {
                Progress::Done {
                    outcome: Err(WorkflowError::ResultRetrievalFailure { diagnostics: stderr }),
                }
            }
        },
        Phase::BenchRunning { output } => {
            if ok {
                deliver(pending, stdout, output)
            } else {
                Progress::Continue {
                    workflow: Workflow {
                        pending,
                        phase: Phase::Failing {
                            error: WorkflowError::ExternalToolFailure { status },
                        },
                    },
                    action: Action::Print { bytes: stdout },
                }
            }
        },
        _ => misfit(),
    }
}

impl Workflow {
    /// Takes the driver's answer to the last action and gives the next
    /// action, or the outcome where the workflow is over.
    pub fn advance(self, event: Event) -> (progress: Progress)
        ensures
            progress@ == spec_advance(self@, event@),
    {
        let Workflow { pending, phase } = self;
        match phase {
            Phase::Failing { error } => Progress::Done { outcome: Err(error) },
            phase => match event {
                Event::Failed { reason } => Progress::Done {
                    outcome: Err(WorkflowError::FilesystemError { reason }),
                },
                Event::Malformed { reason } => Progress::Done {
                    outcome: Err(WorkflowError::ConfigParseError { reason }),
                },
                Event::Completed => on_completed(pending, phase),
                Event::Probed { exists } => on_probed(pending, phase, exists),
                Event::Resolved { path } => on_resolved(pending, phase, path),
                Event::Loaded { document } => on_loaded(pending, phase, document),
                Event::Exited { status, stdout, stderr } => on_exited(
                    pending,
                    phase,
                    status,
                    stdout,
                    stderr,
                ),
            },
        }
    }
}

/// Starts the `create` workflow.
pub fn run_create(request: CreateRequest) -> (progress: Progress)
    ensures
        progress@ == spec_begin(spec_plan_create(request@)),
{
    begin(plan_create(request))
}

/// Starts the `provision` workflow.
pub fn run_provision(request: ProvisionRequest) -> (progress: Progress)
    ensures
        progress@ == spec_begin(spec_plan_provision(request@)),
{
    begin(plan_provision(request))
}

/// Starts the `run-bench` workflow.
pub fn run_bench(request: RunBenchRequest) -> (progress: Progress)
    ensures
        progress@ == spec_begin(spec_plan_run_bench(request@)),
{
    begin(plan_run_bench(request))
}

} // verus!
