//! What holds of every document and of every run of a workflow.
//!
//! A run is a workflow together with the answers that its driver gives, one
//! after another. [`spec_run`] is where the workflow stands after them, and
//! [`spec_actions`] is what it asked for on the way.

use crate::config::{
    Architecture, GeneratedL2ConfigView, L1ConfigView, L2ConfigView, L2SourceView,
};
use crate::error::WorkflowErrorView;
use crate::generator::{
    spec_amend_l2, spec_bridge_interface, spec_build_l1, spec_build_l2,
    spec_in_guest_bench_script,
};
use crate::layout::{
    spec_inner_env, spec_top_env, EnvDir, RemoteCommand, RemoteFile, ScriptKind,
};
use crate::plan::{
    spec_bench_run, spec_plan_create, spec_update_l2, CreateRequestView, OperationView,
};
use crate::protocol::{spec_succeeded, ActionView, EventView};
use crate::workflow::{
    spec_advance, spec_begin, spec_deliver, spec_fail, spec_start, PhaseView, ProgressView,
    WorkflowView,
};
use vstd::prelude::*;

verus! {

/// Where a workflow stands after the driver gave `events` one after
/// another. A workflow that is over stays as it ended.
pub open spec fn spec_run(progress: ProgressView, events: Seq<EventView>) -> ProgressView
    decreases events.len(),
{
    if events.len() == 0 {
        progress
    } else {
        match progress {
            ProgressView::Continue { workflow, .. } => spec_run(
                spec_advance(workflow, events[0]),
                events.drop_first(),
            ),
            ProgressView::Done { .. } => progress,
        }
    }
}

/// The actions that a workflow asks for while the driver gives `events`
/// one after another: the one it starts with, and one for each answer
/// until it is over.
pub open spec fn spec_actions(progress: ProgressView, events: Seq<EventView>) -> Seq<ActionView>
    decreases events.len(),
{
    match progress {
        ProgressView::Done { .. } => seq![],
        ProgressView::Continue { workflow, action } => {
            if events.len() == 0 {
                seq![action]
            } else {
                seq![action] + spec_actions(
                    spec_advance(workflow, events[0]),
                    events.drop_first(),
                )
            }
        },
    }
}

/// One answer: the run goes one step, and the action asked for before it
/// comes first.
pub proof fn lemma_run_one(workflow: WorkflowView, action: ActionView, event: EventView)
    ensures
        spec_run(ProgressView::Continue { workflow, action }, seq![event]) == spec_advance(
            workflow,
            event,
        ),
        spec_actions(ProgressView::Continue { workflow, action }, seq![event]) == seq![action]
            + spec_actions(spec_advance(workflow, event), seq![]),
{
    let events = seq![event];
    assert(events.drop_first() =~= Seq::<EventView>::empty());
    assert(spec_run(spec_advance(workflow, event), events.drop_first()) == spec_advance(
        workflow,
        event,
    ));
}

/// A run over `first` and then `rest` is the run over `rest` from where
/// `first` led, and its actions are those of both parts.
pub proof fn lemma_run_step(
    workflow: WorkflowView,
    action: ActionView,
    first: EventView,
    rest: Seq<EventView>,
)
    ensures
        spec_run(ProgressView::Continue { workflow, action }, seq![first] + rest) == spec_run(
            spec_advance(workflow, first),
            rest,
        ),
        spec_actions(ProgressView::Continue { workflow, action }, seq![first] + rest) == seq![
            action,
        ] + spec_actions(spec_advance(workflow, first), rest),
{
    let events = seq![first] + rest;
    assert(events.drop_first() =~= rest);
    assert(events[0] == first);
}

/// Creating over a directory that exists, without leave to overwrite it,
/// is refused before anything is changed: all that the workflow asks for
/// is the probe of the top directory, and it ends with
/// `EnvironmentAlreadyExists` for that directory.
pub proof fn law_create_keeps_existing(request: CreateRequestView)
    requires
        !request.overwrite,
    ensures
        spec_actions(
            spec_begin(spec_plan_create(request)),
            seq![EventView::Probed { exists: true }],
        ) == seq![ActionView::ProbeDirectory { env: spec_top_env(request.nested) }],
        spec_run(
            spec_begin(spec_plan_create(request)),
            seq![EventView::Probed { exists: true }],
        ) == spec_fail(
            WorkflowErrorView::EnvironmentAlreadyExists { env: spec_top_env(request.nested) },
        ),
        forall|i: int|
            0 <= i < spec_actions(
                spec_begin(spec_plan_create(request)),
                seq![EventView::Probed { exists: true }],
            ).len() ==> !(#[trigger] spec_actions(
                spec_begin(spec_plan_create(request)),
                seq![EventView::Probed { exists: true }],
            )[i]).changes_environment(),
{
    let plan = spec_plan_create(request);
    let env = spec_top_env(request.nested);
    assert(plan[0] == OperationView::CreateEnvironment { env, overwrite: false });
    let start = spec_begin(plan);
    let workflow = WorkflowView {
        pending: plan.drop_first(),
        phase: PhaseView::Probing { env, overwrite: false },
    };
    let action = ActionView::ProbeDirectory { env };
    assert(start == ProgressView::Continue { workflow, action });
    lemma_run_one(workflow, action, EventView::Probed { exists: true });
    assert(seq![action] + Seq::<ActionView>::empty() =~= seq![action]);
}

/// In the two-layer mode the inner directory is probed once the outer one
/// stands. If it exists and may not be overwritten, the workflow ends with
/// `EnvironmentAlreadyExists` for it, and asks for nothing more: the outer
/// directory stays as it was made.
pub proof fn law_create_keeps_existing_inner(request: CreateRequestView)
    requires
        request.nested,
        !request.overwrite,
    ensures
        spec_actions(
            spec_begin(spec_plan_create(request)),
            seq![
                EventView::Probed { exists: false },
                EventView::Completed,
                EventView::Completed,
                EventView::Probed { exists: true },
            ],
        ) == seq![
            ActionView::ProbeDirectory { env: EnvDir::L1 },
            ActionView::CreateDirectory { env: EnvDir::L1 },
            ActionView::CopyTemplate {
                template: EnvDir::L1.spec_template(),
                env: EnvDir::L1,
                overwrite: false,
            },
            ActionView::ProbeDirectory { env: EnvDir::L2 },
        ],
        spec_run(
            spec_begin(spec_plan_create(request)),
            seq![
                EventView::Probed { exists: false },
                EventView::Completed,
                EventView::Completed,
                EventView::Probed { exists: true },
            ],
        ) == spec_fail(WorkflowErrorView::EnvironmentAlreadyExists { env: EnvDir::L2 }),
{
    let plan = spec_plan_create(request);
    assert(plan[0] == OperationView::CreateEnvironment { env: EnvDir::L1, overwrite: false });
    assert(plan[1] == OperationView::CreateEnvironment { env: EnvDir::L2, overwrite: false });
    let rest1 = plan.drop_first();
    let rest2 = rest1.drop_first();
    assert(rest1[0] == plan[1]);
    let e1 = EventView::Probed { exists: false };
    let e2 = EventView::Completed;
    let e3 = EventView::Completed;
    let e4 = EventView::Probed { exists: true };
    let a1 = ActionView::ProbeDirectory { env: EnvDir::L1 };
    let a2 = ActionView::CreateDirectory { env: EnvDir::L1 };
    let a3 = ActionView::CopyTemplate {
        template: EnvDir::L1.spec_template(),
        env: EnvDir::L1,
        overwrite: false,
    };
    let a4 = ActionView::ProbeDirectory { env: EnvDir::L2 };
    let w1 = WorkflowView {
        pending: rest1,
        phase: PhaseView::Probing { env: EnvDir::L1, overwrite: false },
    };
    let w2 = WorkflowView { pending: rest1, phase: PhaseView::Making { env: EnvDir::L1 } };
    let w3 = WorkflowView { pending: rest1, phase: PhaseView::Settling };
    let w4 = WorkflowView {
        pending: rest2,
        phase: PhaseView::Probing { env: EnvDir::L2, overwrite: false },
    };
    assert(spec_begin(plan) == ProgressView::Continue { workflow: w1, action: a1 });
    assert(spec_advance(w1, e1) == ProgressView::Continue { workflow: w2, action: a2 });
    assert(spec_advance(w2, e2) == ProgressView::Continue { workflow: w3, action: a3 });
    assert(spec_advance(w3, e3) == ProgressView::Continue { workflow: w4, action: a4 });
    assert(seq![e1, e2, e3, e4] =~= seq![e1] + seq![e2, e3, e4]);
    assert(seq![e2, e3, e4] =~= seq![e2] + seq![e3, e4]);
    assert(seq![e3, e4] =~= seq![e3] + seq![e4]);
    lemma_run_step(w1, a1, e1, seq![e2, e3, e4]);
    lemma_run_step(w2, a2, e2, seq![e3, e4]);
    lemma_run_step(w3, a3, e3, seq![e4]);
    lemma_run_one(w4, a4, e4);
    assert(seq![a1] + (seq![a2] + (seq![a3] + (seq![a4] + Seq::<ActionView>::empty())))
        =~= seq![a1, a2, a3, a4]);
}

/// Creating over a directory that exists, with leave to overwrite it,
/// replaces it as a whole: the directory is removed with all that is in
/// it, made anew, and filled from the template, in this order and with
/// nothing in between, so that nothing of the old directory is left.
pub proof fn law_create_replaces_existing(request: CreateRequestView)
    requires
        request.overwrite,
    ensures
        spec_actions(
            spec_begin(spec_plan_create(request)),
            seq![EventView::Probed { exists: true }, EventView::Completed, EventView::Completed],
        ) == seq![
            ActionView::ProbeDirectory { env: spec_top_env(request.nested) },
            ActionView::RemoveDirectory { env: spec_top_env(request.nested) },
            ActionView::CreateDirectory { env: spec_top_env(request.nested) },
            ActionView::CopyTemplate {
                template: spec_top_env(request.nested).spec_template(),
                env: spec_top_env(request.nested),
                overwrite: false,
            },
        ],
{
    let plan = spec_plan_create(request);
    let env = spec_top_env(request.nested);
    assert(plan[0] == OperationView::CreateEnvironment { env, overwrite: true });
    let rest = plan.drop_first();
    let e1 = EventView::Probed { exists: true };
    let e2 = EventView::Completed;
    let e3 = EventView::Completed;
    let a1 = ActionView::ProbeDirectory { env };
    let a2 = ActionView::RemoveDirectory { env };
    let a3 = ActionView::CreateDirectory { env };
    let a4 = ActionView::CopyTemplate { template: env.spec_template(), env, overwrite: false };
    let w1 = WorkflowView { pending: rest, phase: PhaseView::Probing { env, overwrite: true } };
    let w2 = WorkflowView { pending: rest, phase: PhaseView::Removing { env } };
    let w3 = WorkflowView { pending: rest, phase: PhaseView::Making { env } };
    let w4 = WorkflowView { pending: rest, phase: PhaseView::Settling };
    assert(spec_begin(plan) == ProgressView::Continue { workflow: w1, action: a1 });
    assert(spec_advance(w1, e1) == ProgressView::Continue { workflow: w2, action: a2 });
    assert(spec_advance(w2, e2) == ProgressView::Continue { workflow: w3, action: a3 });
    assert(spec_advance(w3, e3) == ProgressView::Continue { workflow: w4, action: a4 });
    assert(seq![e1, e2, e3] =~= seq![e1] + seq![e2, e3]);
    assert(seq![e2, e3] =~= seq![e2] + seq![e3]);
    lemma_run_step(w1, a1, e1, seq![e2, e3]);
    lemma_run_step(w2, a2, e2, seq![e3]);
    lemma_run_one(w3, a3, e3);
    assert(seq![a1] + (seq![a2] + (seq![a3] + seq![a4])) =~= seq![a1, a2, a3, a4]);
}

/// Wherever a workflow waits for a probe, an existing directory is removed
/// only with leave to overwrite it, and ends the workflow without it.
pub proof fn law_probe_decides(pending: Seq<OperationView>, env: EnvDir, overwrite: bool)
    ensures
        spec_advance(
            WorkflowView { pending, phase: PhaseView::Probing { env, overwrite } },
            EventView::Probed { exists: true },
        ) == (if overwrite {
            ProgressView::Continue {
                workflow: WorkflowView { pending, phase: PhaseView::Removing { env } },
                action: ActionView::RemoveDirectory { env },
            }
        } else {
            spec_fail(WorkflowErrorView::EnvironmentAlreadyExists { env })
        }),
{
}

/// A document generated from a source in the two-layer shape names an
/// interface if and only if the source enables the bridge, and the
/// interface it names is the bridge interface.
pub proof fn law_interface_follows_bridge(
    source: L2ConfigView,
    bench_script: Option<Seq<char>>,
    provision_script: bool,
    nested: bool,
)
    ensures
        spec_build_l2(
            Some(L2SourceView::Nested(source)),
            bench_script,
            provision_script,
            nested,
        ).network_interface is Some <==> source.enable_network_bridge,
        source.enable_network_bridge ==> spec_build_l2(
            Some(L2SourceView::Nested(source)),
            bench_script,
            provision_script,
            nested,
        ).network_interface == Some(spec_bridge_interface()),
{
}

/// In every generated document of the inner layer, whatever it was
/// generated from, an interface is named if and only if the bridge flag is
/// set.
pub proof fn law_generated_is_consistent(
    source: Option<L2SourceView>,
    bench_script: Option<Seq<char>>,
    provision_script: bool,
    nested: bool,
)
    ensures
        spec_build_l2(source, bench_script, provision_script, nested).consistent(),
{
}

/// A generated document of the inner layer names no benchmark script when
/// none was supplied. When one was, it names the fixed in-guest path in the
/// two-layer mode and the script's host path otherwise.
pub proof fn law_bench_script_path(
    source: Option<L2SourceView>,
    bench_script: Option<Seq<char>>,
    provision_script: bool,
    nested: bool,
)
    ensures
        spec_build_l2(source, bench_script, provision_script, nested).bench_script_path == (
        match bench_script {
            None => None,
            Some(host_path) => if nested {
                Some(spec_in_guest_bench_script())
            } else {
                Some(host_path)
            },
        }),
{
}

/// The host path that the single machine's document names is the canonical
/// path of the script's copy in the machine's directory: the workflow asks
/// for that path, and writes the document with the answer.
pub proof fn law_host_path_is_canonical(
    source: Option<L2SourceView>,
    supplied: Seq<char>,
    provision_script: bool,
    rest: Seq<OperationView>,
    canonical: Seq<char>,
)
    ensures
        spec_actions(
            spec_start(
                OperationView::GenerateL2 {
                    source,
                    bench_script: Some(supplied),
                    provision_script,
                    nested: false,
                },
                rest,
            ),
            seq![EventView::Resolved { path: canonical }],
        ) == seq![
            ActionView::ResolveScript { env: EnvDir::Standalone, script: ScriptKind::Bench },
            ActionView::WriteL2Config {
                env: EnvDir::Standalone,
                document: spec_build_l2(source, Some(canonical), provision_script, false),
            },
        ],
        spec_build_l2(source, Some(canonical), provision_script, false).bench_script_path == Some(
            canonical,
        ),
{
    let workflow = WorkflowView {
        pending: rest,
        phase: PhaseView::LocatingScript { source, provision_script },
    };
    let action = ActionView::ResolveScript { env: EnvDir::Standalone, script: ScriptKind::Bench };
    lemma_run_one(workflow, action, EventView::Resolved { path: canonical });
    let written = ActionView::WriteL2Config {
        env: EnvDir::Standalone,
        document: spec_build_l2(source, Some(canonical), provision_script, false),
    };
    assert(seq![action] + seq![written] =~= seq![action, written]);
}

/// Amending a stored document for a new provision script alone sets the
/// provision flag and keeps every other field.
pub proof fn law_amend_keeps_fields(existing: GeneratedL2ConfigView, nested: bool)
    ensures
        spec_amend_l2(existing, None, true, nested) == (GeneratedL2ConfigView {
            enable_provision_script: true,
            ..existing
        }),
{
}

/// Amending a stored document for a new benchmark script alone replaces
/// the script's path and keeps every other field: the path is the fixed
/// in-guest one in the two-layer mode and the given host path otherwise.
pub proof fn law_amend_for_bench_keeps_fields(
    existing: GeneratedL2ConfigView,
    host_path: Seq<char>,
    nested: bool,
)
    ensures
        spec_amend_l2(existing, Some(host_path), false, nested) == (GeneratedL2ConfigView {
            bench_script_path: if nested {
                Some(spec_in_guest_bench_script())
            } else {
                Some(host_path)
            },
            ..existing
        }),
{
}

/// The outer layer's document points at the inner layer's directory by its
/// canonical path: the workflow asks for that path, and writes the document
/// with the answer in it.
pub proof fn law_outer_document_points_at_inner(
    source: Option<L1ConfigView>,
    arch: Architecture,
    rest: Seq<OperationView>,
    canonical: Seq<char>,
)
    ensures
        spec_actions(
            spec_start(OperationView::GenerateL1 { source, arch }, rest),
            seq![EventView::Resolved { path: canonical }],
        ) == seq![
            ActionView::ResolveDirectory { env: EnvDir::L2 },
            ActionView::WriteL1Config {
                env: EnvDir::L1,
                document: spec_build_l1(source, arch, canonical),
            },
        ],
        spec_build_l1(source, arch, canonical).l2_environment_dir == canonical,
        spec_build_l1(source, arch, canonical).arch == arch,
{
    let workflow = WorkflowView { pending: rest, phase: PhaseView::LocatingInner { source, arch } };
    let action = ActionView::ResolveDirectory { env: EnvDir::L2 };
    lemma_run_one(workflow, action, EventView::Resolved { path: canonical });
    let written = ActionView::WriteL1Config {
        env: EnvDir::L1,
        document: spec_build_l1(source, arch, canonical),
    };
    assert(seq![action] + seq![written] =~= seq![action, written]);
}

/// Provisioning with a new provision script and neither an override of the
/// inner layer nor a benchmark script copies the script, reads the stored
/// document, and writes it back with the provision flag set and every
/// other field as it was read.
pub proof fn law_provision_script_keeps_document(
    nested: bool,
    provision_script: Seq<char>,
    stored: GeneratedL2ConfigView,
)
    ensures
        spec_actions(
            spec_begin(spec_update_l2(nested, None, None, Some(provision_script))),
            seq![EventView::Completed, EventView::Loaded { document: stored }],
        ) == seq![
            ActionView::CopyScript {
                source: provision_script,
                env: spec_inner_env(nested),
                script: ScriptKind::Provision,
            },
            ActionView::ReadL2Config { env: spec_inner_env(nested) },
            ActionView::WriteL2Config {
                env: spec_inner_env(nested),
                document: GeneratedL2ConfigView { enable_provision_script: true, ..stored },
            },
        ],
{
    let env = spec_inner_env(nested);
    let inject = OperationView::InjectScript {
        env,
        script: ScriptKind::Provision,
        source: provision_script,
    };
    let amend = OperationView::AmendL2 { bench_script: None, provision_script: true, nested };
    let plan = spec_update_l2(nested, None, None, Some(provision_script));
    assert(plan =~= seq![inject, amend]);
    assert(plan.drop_first() =~= seq![amend]);
    assert(seq![amend].drop_first() =~= Seq::<OperationView>::empty());
    let a1 = ActionView::CopyScript { source: provision_script, env, script: ScriptKind::Provision };
    let a2 = ActionView::ReadL2Config { env };
    let a3 = ActionView::WriteL2Config {
        env,
        document: GeneratedL2ConfigView { enable_provision_script: true, ..stored },
    };
    let e1 = EventView::Completed;
    let e2 = EventView::Loaded { document: stored };
    let w1 = WorkflowView { pending: seq![amend], phase: PhaseView::Settling };
    let w2 = WorkflowView {
        pending: Seq::<OperationView>::empty(),
        phase: PhaseView::Loading { bench_script: None, provision_script: true, nested },
    };
    let w3 = WorkflowView { pending: Seq::<OperationView>::empty(), phase: PhaseView::Settling };
    assert(spec_begin(plan) == ProgressView::Continue { workflow: w1, action: a1 });
    assert(spec_begin(seq![amend]) == ProgressView::Continue { workflow: w2, action: a2 });
    assert(spec_advance(w1, e1) == ProgressView::Continue { workflow: w2, action: a2 });
    assert(spec_advance(w2, e2) == ProgressView::Continue { workflow: w3, action: a3 });
    assert(seq![e1, e2] =~= seq![e1] + seq![e2]);
    lemma_run_step(w1, a1, e1, seq![e2]);
    lemma_run_one(w2, a2, e2);
    assert(seq![a1] + (seq![a2] + seq![a3]) =~= seq![a1, a2, a3]);
}

/// The benchmark through the outer machine: the runner is started once;
/// when it succeeds the results file is read once and its bytes are handed
/// over as they are. When the runner fails, the workflow ends with
/// `ExternalToolFailure` and the results are never asked for.
pub proof fn law_nested_bench_sequence(
    output: Option<Seq<char>>,
    rest: Seq<OperationView>,
    status: Option<i32>,
    stdout: Seq<u8>,
    stderr: Seq<u8>,
    results: Seq<u8>,
    diagnostics: Seq<u8>,
)
    ensures
        spec_succeeded(status) ==> spec_actions(
            spec_start(OperationView::NestedBench { output }, rest),
            seq![
                EventView::Exited { status, stdout, stderr },
                EventView::Exited { status: Some(0i32), stdout: results, stderr: diagnostics },
            ],
        ) == seq![
            ActionView::RemoteExec { env: EnvDir::L1, command: RemoteCommand::NestedBench },
            ActionView::RemoteRead { env: EnvDir::L1, file: RemoteFile::BenchResults },
            match output {
                Some(path) => ActionView::Persist { path, bytes: results },
                None => ActionView::Print { bytes: results },
            },
        ],
        !spec_succeeded(status) ==> spec_actions(
            spec_start(OperationView::NestedBench { output }, rest),
            seq![EventView::Exited { status, stdout, stderr }],
        ) == seq![ActionView::RemoteExec { env: EnvDir::L1, command: RemoteCommand::NestedBench }],
        !spec_succeeded(status) ==> spec_run(
            spec_start(OperationView::NestedBench { output }, rest),
            seq![EventView::Exited { status, stdout, stderr }],
        ) == spec_fail(WorkflowErrorView::ExternalToolFailure { status }),
{
    let a1 = ActionView::RemoteExec { env: EnvDir::L1, command: RemoteCommand::NestedBench };
    let a2 = ActionView::RemoteRead { env: EnvDir::L1, file: RemoteFile::BenchResults };
    let a3 = match output {
        Some(path) => ActionView::Persist { path, bytes: results },
        None => ActionView::Print { bytes: results },
    };
    let e1 = EventView::Exited { status, stdout, stderr };
    let e2 = EventView::Exited { status: Some(0i32), stdout: results, stderr: diagnostics };
    let w1 = WorkflowView { pending: rest, phase: PhaseView::NestedBenchRunning { output } };
    let w2 = WorkflowView { pending: rest, phase: PhaseView::Fetching { output } };
    let w3 = WorkflowView { pending: rest, phase: PhaseView::Settling };
    lemma_run_one(w1, a1, e1);
    if spec_succeeded(status) {
        assert(spec_advance(w1, e1) == ProgressView::Continue { workflow: w2, action: a2 });
        assert(spec_advance(w2, e2) == spec_deliver(rest, results, output));
        assert(spec_advance(w2, e2) == ProgressView::Continue { workflow: w3, action: a3 });
        assert(seq![e1, e2] =~= seq![e1] + seq![e2]);
        lemma_run_step(w1, a1, e1, seq![e2]);
        lemma_run_one(w2, a2, e2);
        assert(seq![a1] + (seq![a2] + seq![a3]) =~= seq![a1, a2, a3]);
    } else {
        assert(seq![a1] + Seq::<ActionView>::empty() =~= seq![a1]);
    }
}

/// A workflow ends with the benchmark exactly when a script was supplied:
/// the plan of `create` holds one benchmark run, as its last operation, if
/// there is a script, and none if there is not.
pub proof fn law_create_runs_bench_iff_supplied(request: CreateRequestView)
    ensures
        spec_bench_run(request.nested, request.bench_script is Some, request.output).len() == (
        if request.bench_script is Some {
            1nat
        } else {
            0nat
        }),
        request.bench_script is None ==> spec_plan_create(request).last() == (
        OperationView::Boot { env: spec_top_env(request.nested) }),
        request.bench_script is Some && request.nested ==> spec_plan_create(request).last() == (
        OperationView::NestedBench { output: request.output }),
        request.bench_script is Some && !request.nested ==> spec_plan_create(request).last() == (
        OperationView::Bench { output: request.output }),
{
}

/// The most answers that an operation takes from its first action to its
/// last.
pub open spec fn spec_operation_cost(op: OperationView) -> nat {
    match op {
        OperationView::CreateEnvironment { .. } => 4,
        OperationView::Resync { .. } => 1,
        OperationView::InjectScript { .. } => 1,
        OperationView::GenerateL1 { .. } => 2,
        OperationView::GenerateL2 { .. } => 2,
        OperationView::AmendL2 { .. } => 3,
        OperationView::Boot { .. } => 1,
        OperationView::Reload { .. } => 1,
        OperationView::ReloadWithProvision { .. } => 1,
        OperationView::StartInner => 1,
        OperationView::NestedBench { .. } => 3,
        OperationView::Bench { .. } => 2,
    }
}

/// The most answers that the operations of a plan take together.
pub open spec fn spec_plan_cost(ops: Seq<OperationView>) -> nat
    decreases ops.len(),
{
    if ops.len() == 0 {
        0
    } else {
        spec_operation_cost(ops[0]) + spec_plan_cost(ops.drop_first())
    }
}

/// The most answers that the operation under way still takes, the awaited
/// one among them.
pub open spec fn spec_phase_cost(phase: PhaseView) -> nat {
    match phase {
        PhaseView::Probing { .. } => 4,
        PhaseView::Removing { .. } => 3,
        PhaseView::Making { .. } => 2,
        PhaseView::Settling => 1,
        PhaseView::LocatingInner { .. } => 2,
        PhaseView::LocatingScript { .. } => 2,
        PhaseView::LocatingAmendment { .. } => 3,
        PhaseView::Loading { .. } => 2,
        PhaseView::Running => 1,
        PhaseView::NestedBenchRunning { .. } => 3,
        PhaseView::Fetching { .. } => 2,
        PhaseView::BenchRunning { .. } => 2,
        PhaseView::Failing { .. } => 1,
    }
}

/// The most answers that a workflow still takes before it is over.
pub open spec fn spec_answers_left(workflow: WorkflowView) -> nat {
    spec_phase_cost(workflow.phase) + spec_plan_cost(workflow.pending)
}

/// Starting the next operation of a plan leaves no more answers to come
/// than the plan's cost.
pub proof fn lemma_begin_within_cost(pending: Seq<OperationView>)
    ensures
        spec_begin(pending) matches ProgressView::Continue { workflow, .. }
            ==> spec_answers_left(workflow) <= spec_plan_cost(pending),
{
}

/// Every answer brings a workflow nearer to its end: one that goes on has
/// fewer answers left than before.
pub proof fn law_advance_nears_end(workflow: WorkflowView, event: EventView)
    ensures
        spec_advance(workflow, event) matches ProgressView::Continue { workflow: next, .. }
            ==> spec_answers_left(next) < spec_answers_left(workflow),
{
    lemma_begin_within_cost(workflow.pending);
}

/// A workflow is over once it has had as many answers as it had left, be
/// they what they may: no run goes on for ever.
pub proof fn law_workflow_ends(workflow: WorkflowView, action: ActionView, events: Seq<EventView>)
    requires
        events.len() >= spec_answers_left(workflow),
    ensures
        spec_run(ProgressView::Continue { workflow, action }, events) is Done,
    decreases events.len(),
{
    assert(spec_phase_cost(workflow.phase) >= 1);
    law_advance_nears_end(workflow, events[0]);
    match spec_advance(workflow, events[0]) {
        ProgressView::Continue { workflow: next, action: asked } => {
            law_workflow_ends(next, asked, events.drop_first());
        },
        ProgressView::Done { .. } => {
            lemma_done_stays(spec_advance(workflow, events[0]), events.drop_first());
        },
    }
}

/// A workflow that is over stays over.
pub proof fn lemma_done_stays(progress: ProgressView, events: Seq<EventView>)
    requires
        progress is Done,
    ensures
        spec_run(progress, events) == progress,
{
}

/// Whatever a workflow waits for, short of having failed already, a
/// failed action ends it at once with the reason given: nothing is
/// retried.
pub proof fn law_failure_ends_workflow(workflow: WorkflowView, reason: Seq<char>)
    requires
        !(workflow.phase is Failing),
    ensures
        spec_advance(workflow, EventView::Failed { reason }) == spec_fail(
            WorkflowErrorView::FilesystemError { reason },
        ),
{
}

/// A lifecycle command that does not end with status zero ends the
/// workflow with `ExternalToolFailure` and that status.
pub proof fn law_tool_failure_ends_workflow(
    pending: Seq<OperationView>,
    status: Option<i32>,
    stdout: Seq<u8>,
    stderr: Seq<u8>,
)
    requires
        !spec_succeeded(status),
    ensures
        spec_advance(
            WorkflowView { pending, phase: PhaseView::Running },
            EventView::Exited { status, stdout, stderr },
        ) == spec_fail(WorkflowErrorView::ExternalToolFailure { status }),
{
}

} // verus!
