//! The three workflows as plans: the operations that each one is made of,
//! in the order in which they run.
//!
//! A plan is fixed by the request alone. What the operations learn while
//! they run (whether a directory exists, where a script ended up, what a
//! stored document holds) is dealt with when the plan is carried out.

use crate::config::{
    text_view, Architecture, L1Config, L1ConfigView, L2Source, L2SourceView,
};
use crate::generator::{l1_source_view, source_view};
use crate::layout::{
    inner_env, spec_inner_env, spec_top_env, top_env, EnvDir, ScriptKind,
};
use vstd::prelude::*;

verus! {

/// One operation of a workflow. The driver sees it as one action or as a
/// few in a row.
#[derive(Clone, Debug, PartialEq, Eq)]
#[allow(inconsistent_fields)]
pub enum Operation {
    /// Create the directory from its template. An existing directory is
    /// removed first where `overwrite` is set, and ends the workflow where
    /// it is not.
    CreateEnvironment { env: EnvDir, overwrite: bool },
    /// Copy the template over the existing directory. Files that the
    /// template does not have stay as they are.
    Resync { env: EnvDir },
    /// Copy a script into the directory under its fixed name.
    InjectScript { env: EnvDir, script: ScriptKind, source: String },
    /// Build the outer layer's document and write it.
    GenerateL1 { source: Option<L1Config>, arch: Architecture },
    /// Build the inner layer's document and write it. `bench_script` is the
    /// benchmark script as it was supplied.
    GenerateL2 {
        source: Option<L2Source>,
        bench_script: Option<String>,
        provision_script: bool,
        nested: bool,
    },
    /// Read the inner layer's stored document, amend it and write it back.
    AmendL2 { bench_script: Option<String>, provision_script: bool, nested: bool },
    /// Bring the machine up.
    Boot { env: EnvDir },
    /// Restart the machine.
    Reload { env: EnvDir },
    /// Restart the machine and provision it again.
    ReloadWithProvision { env: EnvDir },
    /// Have the outer machine bring up the inner one.
    StartInner,
    /// Run the benchmark through the outer machine and fetch its results.
    NestedBench { output: Option<String> },
    /// Run the benchmark in the single machine and take what it prints.
    Bench { output: Option<String> },
}

#[allow(inconsistent_fields)]
pub enum OperationView {
    CreateEnvironment { env: EnvDir, overwrite: bool },
    Resync { env: EnvDir },
    InjectScript { env: EnvDir, script: ScriptKind, source: Seq<char> },
    GenerateL1 { source: Option<L1ConfigView>, arch: Architecture },
    GenerateL2 {
        source: Option<L2SourceView>,
        bench_script: Option<Seq<char>>,
        provision_script: bool,
        nested: bool,
    },
    AmendL2 { bench_script: Option<Seq<char>>, provision_script: bool, nested: bool },
    Boot { env: EnvDir },
    Reload { env: EnvDir },
    ReloadWithProvision { env: EnvDir },
    StartInner,
    NestedBench { output: Option<Seq<char>> },
    Bench { output: Option<Seq<char>> },
}

impl View for Operation {
    type V = OperationView;

    open spec fn view(&self) -> OperationView {
        match self {
            Operation::CreateEnvironment { env, overwrite } => OperationView::CreateEnvironment {
                env: *env,
                overwrite: *overwrite,
            },
            Operation::Resync { env } => OperationView::Resync { env: *env },
            Operation::InjectScript { env, script, source } => OperationView::InjectScript {
                env: *env,
                script: *script,
                source: source@,
            },
            Operation::GenerateL1 { source, arch } => OperationView::GenerateL1 {
                source: l1_source_view(*source),
                arch: *arch,
            },
            Operation::GenerateL2 { source, bench_script, provision_script, nested } => {
                OperationView::GenerateL2 {
                    source: source_view(*source),
                    bench_script: text_view(*bench_script),
                    provision_script: *provision_script,
                    nested: *nested,
                }
            },
            Operation::AmendL2 { bench_script, provision_script, nested } => {
                OperationView::AmendL2 {
                    bench_script: text_view(*bench_script),
                    provision_script: *provision_script,
                    nested: *nested,
                }
            },
            Operation::Boot { env } => OperationView::Boot { env: *env },
            Operation::Reload { env } => OperationView::Reload { env: *env },
            Operation::ReloadWithProvision { env } => OperationView::ReloadWithProvision {
                env: *env,
            },
            Operation::StartInner => OperationView::StartInner,
            Operation::NestedBench { output } => OperationView::NestedBench {
                output: text_view(*output),
            },
            Operation::Bench { output } => OperationView::Bench { output: text_view(*output) },
        }
    }
}

/// The views of a sequence of operations, in the same order.
pub open spec fn operation_views(ops: Seq<Operation>) -> Seq<OperationView> {
    Seq::new(ops.len(), |i: int| ops[i]@)
}

/// What the `create` workflow is asked to do.
#[derive(Clone, Debug, PartialEq, Eq)]
pub struct CreateRequest {
    /// Two layers, or the single machine of the simplified mode.
    pub nested: bool,
    /// Whether an existing directory is replaced.
    pub overwrite: bool,
    pub arch: Architecture,
    pub l1_override: Option<L1Config>,
    pub l2_override: Option<L2Source>,
    /// The path of the benchmark script, if one is to be run.
    pub bench_script: Option<String>,
    /// The path of the provision script, if there is one.
    pub provision_script: Option<String>,
    /// The file that receives the results. Without it they are printed.
    pub output: Option<String>,
}

pub struct CreateRequestView {
    pub nested: bool,
    pub overwrite: bool,
    pub arch: Architecture,
    pub l1_override: Option<L1ConfigView>,
    pub l2_override: Option<L2SourceView>,
    pub bench_script: Option<Seq<char>>,
    pub provision_script: Option<Seq<char>>,
    pub output: Option<Seq<char>>,
}

impl View for CreateRequest {
    type V = CreateRequestView;

    open spec fn view(&self) -> CreateRequestView {
        CreateRequestView {
            nested: self.nested,
            overwrite: self.overwrite,
            arch: self.arch,
            l1_override: l1_source_view(self.l1_override),
            l2_override: source_view(self.l2_override),
            bench_script: text_view(self.bench_script),
            provision_script: text_view(self.provision_script),
            output: text_view(self.output),
        }
    }
}

/// What the `provision` workflow is asked to do.
#[derive(Clone, Debug, PartialEq, Eq)]
pub struct ProvisionRequest {
    pub nested: bool,
    /// Whether the templates are copied over the directories again.
    pub sync: bool,
    pub arch: Architecture,
    pub l1_override: Option<L1Config>,
    pub l2_override: Option<L2Source>,
    pub bench_script: Option<String>,
    pub provision_script: Option<String>,
    pub output: Option<String>,
}

pub struct ProvisionRequestView {
    pub nested: bool,
    pub sync: bool,
    pub arch: Architecture,
    pub l1_override: Option<L1ConfigView>,
    pub l2_override: Option<L2SourceView>,
    pub bench_script: Option<Seq<char>>,
    pub provision_script: Option<Seq<char>>,
    pub output: Option<Seq<char>>,
}

impl View for ProvisionRequest {
    type V = ProvisionRequestView;

    open spec fn view(&self) -> ProvisionRequestView {
        ProvisionRequestView {
            nested: self.nested,
            sync: self.sync,
            arch: self.arch,
            l1_override: l1_source_view(self.l1_override),
            l2_override: source_view(self.l2_override),
            bench_script: text_view(self.bench_script),
            provision_script: text_view(self.provision_script),
            output: text_view(self.output),
        }
    }
}

/// What the `run-bench` workflow is asked to do.
#[derive(Clone, Debug, PartialEq, Eq)]
pub struct RunBenchRequest {
    pub nested: bool,
    pub bench_script: String,
    pub output: Option<String>,
}

pub struct RunBenchRequestView {
    pub nested: bool,
    pub bench_script: Seq<char>,
    pub output: Option<Seq<char>>,
}

impl View for RunBenchRequest {
    type V = RunBenchRequestView;

    open spec fn view(&self) -> RunBenchRequestView {
        RunBenchRequestView {
            nested: self.nested,
            bench_script: self.bench_script@,
            output: text_view(self.output),
        }
    }
}

/// The copies that put the supplied scripts into a directory: the
/// benchmark script first, then the provision script.
pub open spec fn spec_inject_scripts(
    env: EnvDir,
    bench_script: Option<Seq<char>>,
    provision_script: Option<Seq<char>>,
) -> Seq<OperationView> {
    (match bench_script {
        Some(source) => seq![
            OperationView::InjectScript { env, script: ScriptKind::Bench, source },
        ],
        None => seq![],
    }) + (match provision_script {
        Some(source) => seq![
            OperationView::InjectScript { env, script: ScriptKind::Provision, source },
        ],
        None => seq![],
    })
}

/// The benchmark run that ends a workflow: none without a script, through
/// the outer machine in the two-layer mode, in the single machine
/// otherwise.
pub open spec fn spec_bench_run(nested: bool, bench_script: bool, output: Option<Seq<char>>) -> Seq<
    OperationView,
> {
    if !bench_script {
        seq![]
    } else if nested {
        seq![OperationView::NestedBench { output }]
    } else {
        seq![OperationView::Bench { output }]
    }
}

/// The directories that `create` makes. In the two-layer mode the outer
/// layer's document is written as soon as the inner layer's directory is
/// there for it to point at.
pub open spec fn spec_create_directories(
    nested: bool,
    overwrite: bool,
    l1_override: Option<L1ConfigView>,
    arch: Architecture,
) -> Seq<OperationView> {
    if nested {
        seq![
            OperationView::CreateEnvironment { env: EnvDir::L1, overwrite },
            OperationView::CreateEnvironment { env: EnvDir::L2, overwrite },
            OperationView::GenerateL1 { source: l1_override, arch },
        ]
    } else {
        seq![OperationView::CreateEnvironment { env: EnvDir::Standalone, overwrite }]
    }
}

/// The plan of `create`: make the directories, put the scripts into the
/// innermost one, write its document, boot the top machine, and run the
/// benchmark if a script was supplied. The inner machine of the two-layer
/// mode is not booted here: the outer machine's provisioning does that.
pub open spec fn spec_plan_create(request: CreateRequestView) -> Seq<OperationView> {
    spec_create_directories(
        request.nested,
        request.overwrite,
        request.l1_override,
        request.arch,
    ) + spec_inject_scripts(
        spec_inner_env(request.nested),
        request.bench_script,
        request.provision_script,
    ) + seq![
        OperationView::GenerateL2 {
            source: request.l2_override,
            bench_script: request.bench_script,
            provision_script: request.provision_script is Some,
            nested: request.nested,
        },
        OperationView::Boot { env: spec_top_env(request.nested) },
    ] + spec_bench_run(request.nested, request.bench_script is Some, request.output)
}

/// The template copies of `provision`, made only on request.
pub open spec fn spec_resync(nested: bool, sync: bool) -> Seq<OperationView> {
    if !sync {
        seq![]
    } else if nested {
        seq![
            OperationView::Resync { env: EnvDir::L1 },
            OperationView::Resync { env: EnvDir::L2 },
        ]
    } else {
        seq![OperationView::Resync { env: EnvDir::Standalone }]
    }
}

/// How `provision` brings the outer layer's document up to date: it is
/// built anew where an override was supplied, and left alone otherwise. The
/// simplified mode has no outer layer.
pub open spec fn spec_update_l1(
    nested: bool,
    l1_override: Option<L1ConfigView>,
    arch: Architecture,
) -> Seq<OperationView> {
    if nested && l1_override is Some {
        seq![OperationView::GenerateL1 { source: l1_override, arch }]
    } else {
        seq![]
    }
}

/// How `provision` brings the inner layer's document up to date. With an
/// override the document is built anew. Without one, a new provision script
/// has the stored document amended, so that what was configured before
/// stays. With neither, the document and the scripts beside it are left
/// alone, also where a benchmark script was supplied: the benchmark then
/// runs what the directory holds.
pub open spec fn spec_update_l2(
    nested: bool,
    l2_override: Option<L2SourceView>,
    bench_script: Option<Seq<char>>,
    provision_script: Option<Seq<char>>,
) -> Seq<OperationView> {
    if l2_override is Some {
        spec_inject_scripts(spec_inner_env(nested), bench_script, provision_script) + seq![
            OperationView::GenerateL2 {
                source: l2_override,
                bench_script,
                provision_script: provision_script is Some,
                nested,
            },
        ]
    } else if provision_script is Some {
        spec_inject_scripts(spec_inner_env(nested), bench_script, provision_script) + seq![
            OperationView::AmendL2 { bench_script, provision_script: true, nested },
        ]
    } else {
        seq![]
    }
}

/// The plan of `provision`: copy the templates again if asked to, bring the
/// documents up to date, restart the top machine with provisioning, and run
/// the benchmark if a script was supplied.
pub open spec fn spec_plan_provision(request: ProvisionRequestView) -> Seq<OperationView> {
    spec_resync(request.nested, request.sync) + spec_update_l1(
        request.nested,
        request.l1_override,
        request.arch,
    ) + spec_update_l2(
        request.nested,
        request.l2_override,
        request.bench_script,
        request.provision_script,
    ) + seq![OperationView::ReloadWithProvision { env: spec_top_env(request.nested) }]
        + spec_bench_run(request.nested, request.bench_script is Some, request.output)
}

/// The plan of `run-bench`: put the script into the innermost directory,
/// record it in the stored document, restart the top machine, have the
/// outer machine start the inner one where there are two, and run the
/// benchmark.
pub open spec fn spec_plan_run_bench(request: RunBenchRequestView) -> Seq<OperationView> {
    seq![
        OperationView::InjectScript {
            env: spec_inner_env(request.nested),
            script: ScriptKind::Bench,
            source: request.bench_script,
        },
        OperationView::AmendL2 {
            bench_script: Some(request.bench_script),
            provision_script: false,
            nested: request.nested,
        },
        OperationView::Reload { env: spec_top_env(request.nested) },
    ] + (if request.nested {
        seq![OperationView::StartInner]
    } else {
        seq![]
    }) + spec_bench_run(request.nested, true, request.output)
}

/// Appending to a sequence of operations appends to its views.
pub proof fn lemma_views_push(ops: Seq<Operation>, op: Operation)
    ensures
        operation_views(ops.push(op)) == operation_views(ops).push(op@),
{
    assert(operation_views(ops.push(op)) =~= operation_views(ops).push(op@));
}

/// Adds the copies of the supplied scripts to a plan.
fn push_inject_scripts(
    ops: &mut Vec<Operation>,
    env: EnvDir,
    bench_script: Option<String>,
    provision_script: Option<String>,
)
    ensures
        operation_views(final(ops)@) == operation_views(old(ops)@) + spec_inject_scripts(
            env,
            text_view(bench_script),
            text_view(provision_script),
        ),
{
    let ghost before = ops@;
    match bench_script {
        Some(source) => {
            proof {
                lemma_views_push(
                    ops@,
                    Operation::InjectScript { env, script: ScriptKind::Bench, source },
                );
            }
            ops.push(Operation::InjectScript { env, script: ScriptKind::Bench, source });
        },
        None => {},
    }
    let ghost between = ops@;
    match provision_script {
        Some(source) => {
            proof {
                lemma_views_push(
                    ops@,
                    Operation::InjectScript { env, script: ScriptKind::Provision, source },
                );
            }
            ops.push(Operation::InjectScript { env, script: ScriptKind::Provision, source });
        },
        None => {},
    }
    assert(operation_views(ops@) =~= operation_views(before) + spec_inject_scripts(
        env,
        text_view(bench_script),
        text_view(provision_script),
    ));
}

/// Adds the benchmark run to a plan.
fn push_bench_run(
    ops: &mut Vec<Operation>,
    nested: bool,
    bench_script: bool,
    output: Option<String>,
)
    ensures
        operation_views(final(ops)@) == operation_views(old(ops)@) + spec_bench_run(
            nested,
            bench_script,
            text_view(output),
        ),
{
    let ghost before = ops@;
    if bench_script {
        if nested {
            proof {
                lemma_views_push(ops@, Operation::NestedBench { output });
            }
            ops.push(Operation::NestedBench { output });
        } else {
            proof {
                lemma_views_push(ops@, Operation::Bench { output });
            }
            ops.push(Operation::Bench { output });
        }
    }
    assert(operation_views(ops@) =~= operation_views(before) + spec_bench_run(
        nested,
        bench_script,
        text_view(output),
    ));
}

/// A copy of an optional path.
fn copy_path(path: &Option<String>) -> (copy: Option<String>)
    ensures
        text_view(copy) == text_view(*path),
{
    match path {
        Some(text) => Some(text.clone()),
        None => None,
    }
}

/// Adds the making of the directories to a plan.
fn push_create_directories(
    ops: &mut Vec<Operation>,
    nested: bool,
    overwrite: bool,
    l1_override: Option<L1Config>,
    arch: Architecture,
)
    ensures
        operation_views(final(ops)@) == operation_views(old(ops)@) + spec_create_directories(
            nested,
            overwrite,
            l1_source_view(l1_override),
            arch,
        ),
{
    let ghost before = ops@;
    if nested {
        ops.push(Operation::CreateEnvironment { env: EnvDir::L1, overwrite });
        ops.push(Operation::CreateEnvironment { env: EnvDir::L2, overwrite });
        ops.push(Operation::GenerateL1 { source: l1_override, arch });
    } else {
        ops.push(Operation::CreateEnvironment { env: EnvDir::Standalone, overwrite });
    }
    assert(operation_views(ops@) =~= operation_views(before) + spec_create_directories(
        nested,
        overwrite,
        l1_source_view(l1_override),
        arch,
    ));
}

/// Adds one operation to a plan.
fn push_operation(ops: &mut Vec<Operation>, op: Operation)
    ensures
        operation_views(final(ops)@) == operation_views(old(ops)@) + seq![op@],
{
    proof {
        lemma_views_push(ops@, op);
        assert(operation_views(ops@).push(op@) =~= operation_views(ops@) + seq![op@]);
    }
    ops.push(op);
}

/// The plan of the `create` workflow.
pub fn plan_create(request: CreateRequest) -> (ops: Vec<Operation>)
    ensures
        operation_views(ops@) == spec_plan_create(request@),
{
    let CreateRequest {
        nested,
        overwrite,
        arch,
        l1_override,
        l2_override,
        bench_script,
        provision_script,
        output,
    } = request;
    let supplied = copy_path(&bench_script);
    let has_bench = bench_script.is_some();
    let has_provision = provision_script.is_some();
    let mut ops: Vec<Operation> = Vec::new();
    assert(operation_views(ops@) =~= Seq::<OperationView>::empty());
    push_create_directories(&mut ops, nested, overwrite, l1_override, arch);
    let ghost directories = operation_views(ops@);
    push_inject_scripts(&mut ops, inner_env(nested), bench_script, provision_script);
    let ghost scripts = operation_views(ops@);
    let generate = Operation::GenerateL2 {
        source: l2_override,
        bench_script: supplied,
        provision_script: has_provision,
        nested,
    };
    let boot = Operation::Boot { env: top_env(nested) };
    push_operation(&mut ops, generate);
    push_operation(&mut ops, boot);
    assert(operation_views(ops@) =~= scripts + seq![generate@, boot@]);
    push_bench_run(&mut ops, nested, has_bench, output);
    assert(directories =~= spec_create_directories(
        nested,
        overwrite,
        l1_source_view(l1_override),
        arch,
    ));
    ops
}

/// Adds the template copies of `provision` to a plan.
fn push_resync(ops: &mut Vec<Operation>, nested: bool, sync: bool)
    ensures
        operation_views(final(ops)@) == operation_views(old(ops)@) + spec_resync(nested, sync),
{
    let ghost before = ops@;
    if sync {
        if nested {
            ops.push(Operation::Resync { env: EnvDir::L1 });
            ops.push(Operation::Resync { env: EnvDir::L2 });
        } else {
            ops.push(Operation::Resync { env: EnvDir::Standalone });
        }
    }
    assert(operation_views(ops@) =~= operation_views(before) + spec_resync(nested, sync));
}

/// Adds the update of the outer layer's document to a plan.
fn push_update_l1(
    ops: &mut Vec<Operation>,
    nested: bool,
    l1_override: Option<L1Config>,
    arch: Architecture,
)
    ensures
        operation_views(final(ops)@) == operation_views(old(ops)@) + spec_update_l1(
            nested,
            l1_source_view(l1_override),
            arch,
        ),
{
    let ghost before = ops@;
    if nested && l1_override.is_some() {
        ops.push(Operation::GenerateL1 { source: l1_override, arch });
    }
    assert(operation_views(ops@) =~= operation_views(before) + spec_update_l1(
        nested,
        l1_source_view(l1_override),
        arch,
    ));
}

/// Adds the update of the inner layer's document to a plan.
fn push_update_l2(
    ops: &mut Vec<Operation>,
    nested: bool,
    l2_override: Option<L2Source>,
    bench_script: Option<String>,
    provision_script: Option<String>,
)
    ensures
        operation_views(final(ops)@) == operation_views(old(ops)@) + spec_update_l2(
            nested,
            source_view(l2_override),
            text_view(bench_script),
            text_view(provision_script),
        ),
{
    let ghost before = operation_views(ops@);
    let ghost scripts = spec_inject_scripts(
        spec_inner_env(nested),
        text_view(bench_script),
        text_view(provision_script),
    );
    let supplied = copy_path(&bench_script);
    let has_provision = provision_script.is_some();
    if l2_override.is_some() {
        push_inject_scripts(ops, inner_env(nested), bench_script, provision_script);
        let generate = Operation::GenerateL2 {
            source: l2_override,
            bench_script: supplied,
            provision_script: has_provision,
            nested,
        };
        push_operation(ops, generate);
        assert(operation_views(ops@) =~= before + (scripts + seq![generate@]));
    } else if has_provision {
        push_inject_scripts(ops, inner_env(nested), bench_script, provision_script);
        let amend = Operation::AmendL2 { bench_script: supplied, provision_script: true, nested };
        push_operation(ops, amend);
        assert(operation_views(ops@) =~= before + (scripts + seq![amend@]));
    } else {
        assert(operation_views(ops@) =~= before + Seq::<OperationView>::empty());
    }
}

/// The plan of the `provision` workflow.
pub fn plan_provision(request: ProvisionRequest) -> (ops: Vec<Operation>)
    ensures
        operation_views(ops@) == spec_plan_provision(request@),
{
    let ProvisionRequest {
        nested,
        sync,
        arch,
        l1_override,
        l2_override,
        bench_script,
        provision_script,
        output,
    } = request;
    let has_bench = bench_script.is_some();
    let mut ops: Vec<Operation> = Vec::new();
    assert(operation_views(ops@) =~= Seq::<OperationView>::empty());
    push_resync(&mut ops, nested, sync);
    assert(operation_views(ops@) =~= spec_resync(nested, sync));
    push_update_l1(&mut ops, nested, l1_override, arch);
    push_update_l2(&mut ops, nested, l2_override, bench_script, provision_script);
    push_operation(&mut ops, Operation::ReloadWithProvision { env: top_env(nested) });
    push_bench_run(&mut ops, nested, has_bench, output);
    ops
}

/// The plan of the `run-bench` workflow.
pub fn plan_run_bench(request: RunBenchRequest) -> (ops: Vec<Operation>)
    ensures
        operation_views(ops@) == spec_plan_run_bench(request@),
{
    let RunBenchRequest { nested, bench_script, output } = request;
    let supplied = bench_script.clone();
    let mut ops: Vec<Operation> = Vec::new();
    ops.push(
        Operation::InjectScript {
            env: inner_env(nested),
            script: ScriptKind::Bench,
            source: bench_script,
        },
    );
    ops.push(
        Operation::AmendL2 { bench_script: Some(supplied), provision_script: false, nested },
    );
    ops.push(Operation::Reload { env: top_env(nested) });
    if nested {
        ops.push(Operation::StartInner);
    }
    assert(operation_views(ops@) =~= seq![
        OperationView::InjectScript {
            env: spec_inner_env(nested),
            script: ScriptKind::Bench,
            source: bench_script@,
        },
        OperationView::AmendL2 {
            bench_script: Some(bench_script@),
            provision_script: false,
            nested,
        },
        OperationView::Reload { env: spec_top_env(nested) },
    ] + (if nested {
        seq![OperationView::StartInner]
    } else {
        seq![]
    }));
    push_bench_run(&mut ops, nested, true, output);
    ops
}

} // verus!
