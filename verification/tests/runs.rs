use nested_bench::config::{
    Architecture, CpuMode, GeneratedL1Config, GeneratedL2Config, L1Config, L2Config, L2Source,
};
use nested_bench::error::WorkflowError;
use nested_bench::layout::{EnvDir, RemoteCommand, RemoteFile, ScriptKind, Template};
use nested_bench::plan::{CreateRequest, Operation, ProvisionRequest, RunBenchRequest};
use nested_bench::protocol::{succeeded, Action, Event};
use nested_bench::workflow::{begin, run_bench, run_create, run_provision, Phase, Progress, Workflow};

/// Answers the workflow's actions with `events` in turn. Gives the actions
/// asked for and the outcome, if the workflow came to its end.
fn drive(
    start: Progress,
    events: Vec<Event>,
) -> (Vec<Action>, Option<Result<(), WorkflowError>>) {
    let mut actions = Vec::new();
    let mut progress = start;
    for event in events {
        match progress {
            Progress::Continue { workflow, action } => {
                actions.push(action);
                progress = workflow.advance(event);
            }
            Progress::Done { outcome } => return (actions, Some(outcome)),
        }
    }
    match progress {
        Progress::Continue { action, .. } => {
            actions.push(action);
            (actions, None)
        }
        Progress::Done { outcome } => (actions, Some(outcome)),
    }
}

fn exited(code: i32) -> Event {
    Event::Exited { status: Some(code), stdout: Vec::new(), stderr: Vec::new() }
}

fn output(code: i32, stdout: &str, stderr: &str) -> Event {
    Event::Exited {
        status: Some(code),
        stdout: stdout.as_bytes().to_vec(),
        stderr: stderr.as_bytes().to_vec(),
    }
}

fn resolved(path: &str) -> Event {
    Event::Resolved { path: path.to_string() }
}

fn create_request(nested: bool) -> CreateRequest {
    CreateRequest {
        nested,
        overwrite: false,
        arch: Architecture::Intel,
        l1_override: None,
        l2_override: None,
        bench_script: None,
        provision_script: None,
        output: None,
    }
}

fn provision_request(nested: bool) -> ProvisionRequest {
    ProvisionRequest {
        nested,
        sync: false,
        arch: Architecture::Amd,
        l1_override: None,
        l2_override: None,
        bench_script: None,
        provision_script: None,
        output: None,
    }
}

fn stored_document() -> GeneratedL2Config {
    GeneratedL2Config {
        config: L2Config {
            host_name: "tuned".to_string(),
            cpus: 6,
            memory: 12288,
            cpu_mode: CpuMode::HostPassthrough,
            enable_network_bridge: true,
        },
        bench_script_path: None,
        network_interface: Some("eth0".to_string()),
        enable_provision_script: false,
    }
}

fn create_tree(env: EnvDir, template: Template) -> Vec<Action> {
    vec![
        Action::ProbeDirectory { env },
        Action::CreateDirectory { env },
        Action::CopyTemplate { template, env, overwrite: false },
    ]
}

fn count(actions: &[Action], wanted: &Action) -> usize {
    actions.iter().filter(|action| *action == wanted).count()
}

#[test]
fn create_nested_without_overrides_or_bench() {
    let events = vec![
        Event::Probed { exists: false },
        Event::Completed,
        Event::Completed,
        Event::Probed { exists: false },
        Event::Completed,
        Event::Completed,
        resolved("/srv/project/l2-vagrant"),
        Event::Completed,
        Event::Completed,
        exited(0),
    ];
    let (actions, outcome) = drive(run_create(create_request(true)), events);
    assert_eq!(outcome, Some(Ok(())));

    let mut expected = create_tree(EnvDir::L1, Template::L1);
    expected.extend(create_tree(EnvDir::L2, Template::L2));
    expected.push(Action::ResolveDirectory { env: EnvDir::L2 });
    expected.push(Action::WriteL1Config {
        env: EnvDir::L1,
        document: GeneratedL1Config {
            config: L1Config::default(),
            arch: Architecture::Intel,
            l2_environment_dir: "/srv/project/l2-vagrant".to_string(),
        },
    });
    expected.push(Action::WriteL2Config {
        env: EnvDir::L2,
        document: GeneratedL2Config {
            config: L2Config::default(),
            bench_script_path: None,
            network_interface: None,
            enable_provision_script: false,
        },
    });
    expected.push(Action::Boot { env: EnvDir::L1 });
    assert_eq!(actions, expected);

    match &actions[7] {
        Action::WriteL1Config { document, .. } => {
            assert_eq!(document.config.host_name, "l1-vagrant");
            assert_eq!(document.config.cpus, 2);
            assert_eq!(document.config.memory, 4096);
        }
        other => panic!("unexpected action {:?}", other),
    }
    match &actions[8] {
        Action::WriteL2Config { document, .. } => {
            assert_eq!(document.config.host_name, "l2-vagrant");
            assert_eq!(document.config.cpus, 2);
            assert_eq!(document.config.memory, 2048);
        }
        other => panic!("unexpected action {:?}", other),
    }
    assert_eq!(count(&actions, &Action::Boot { env: EnvDir::L2 }), 0);
    assert!(!actions.iter().any(|action| matches!(
        action,
        Action::RemoteExec { .. } | Action::RemoteCapture { .. } | Action::RemoteRead { .. }
    )));
}

fn nested_bench_events(runner: Event, reader: Event) -> Vec<Event> {
    vec![
        Event::Probed { exists: false },
        Event::Completed,
        Event::Completed,
        Event::Probed { exists: false },
        Event::Completed,
        Event::Completed,
        resolved("/srv/project/l2-vagrant"),
        Event::Completed,
        Event::Completed,
        Event::Completed,
        exited(0),
        runner,
        reader,
        Event::Completed,
    ]
}

#[test]
fn create_with_bench_runs_runner_then_reads_results() {
    let mut request = create_request(true);
    request.bench_script = Some("/home/me/bench.sh".to_string());
    request.output = Some("/home/me/results.txt".to_string());
    let events = nested_bench_events(exited(0), output(0, "42 ops/s\n", ""));
    let (actions, outcome) = drive(run_create(request), events);
    assert_eq!(outcome, Some(Ok(())));

    let runner = Action::RemoteExec { env: EnvDir::L1, command: RemoteCommand::NestedBench };
    let reader = Action::RemoteRead { env: EnvDir::L1, file: RemoteFile::BenchResults };
    assert_eq!(count(&actions, &runner), 1);
    assert_eq!(count(&actions, &reader), 1);
    let boot = actions.iter().position(|a| *a == Action::Boot { env: EnvDir::L1 }).unwrap();
    assert_eq!(actions[boot + 1], runner);
    assert_eq!(actions[boot + 2], reader);
    assert_eq!(
        actions[boot + 3],
        Action::Persist {
            path: "/home/me/results.txt".to_string(),
            bytes: b"42 ops/s\n".to_vec(),
        }
    );
    assert_eq!(actions.len(), boot + 4);

    assert_eq!(
        actions[8],
        Action::CopyScript {
            source: "/home/me/bench.sh".to_string(),
            env: EnvDir::L2,
            script: ScriptKind::Bench,
        }
    );
    match &actions[9] {
        Action::WriteL2Config { env, document } => {
            assert_eq!(*env, EnvDir::L2);
            assert_eq!(
                document.bench_script_path,
                Some("/home/vagrant/l2-vagrant/run-bench.sh".to_string())
            );
        }
        other => panic!("unexpected action {:?}", other),
    }
}

#[test]
fn create_with_bench_stops_when_runner_fails() {
    let mut request = create_request(true);
    request.bench_script = Some("/home/me/bench.sh".to_string());
    let events = nested_bench_events(exited(3), output(0, "never read", ""));
    let (actions, outcome) = drive(run_create(request), events);
    assert_eq!(outcome, Some(Err(WorkflowError::ExternalToolFailure { status: Some(3) })));
    assert_eq!(
        actions.last(),
        Some(&Action::RemoteExec { env: EnvDir::L1, command: RemoteCommand::NestedBench })
    );
    assert_eq!(
        count(&actions, &Action::RemoteRead { env: EnvDir::L1, file: RemoteFile::BenchResults }),
        0
    );
}

#[test]
fn create_with_bench_reports_unreadable_results() {
    let mut request = create_request(true);
    request.bench_script = Some("/home/me/bench.sh".to_string());
    let events = nested_bench_events(exited(0), output(1, "", "cat: no such file"));
    let (actions, outcome) = drive(run_create(request), events);
    assert_eq!(
        outcome,
        Some(Err(WorkflowError::ResultRetrievalFailure {
            diagnostics: b"cat: no such file".to_vec(),
        }))
    );
    assert!(!actions.iter().any(|a| matches!(a, Action::Persist { .. } | Action::Print { .. })));
}

#[test]
fn create_with_bench_prints_results_without_output_file() {
    let mut request = create_request(true);
    request.bench_script = Some("/home/me/bench.sh".to_string());
    let events = nested_bench_events(exited(0), output(0, "7\n", "warning"));
    let (actions, outcome) = drive(run_create(request), events);
    assert_eq!(outcome, Some(Ok(())));
    assert_eq!(actions.last(), Some(&Action::Print { bytes: b"7\n".to_vec() }));
}

#[test]
fn second_create_without_overwrite_changes_nothing() {
    for nested in [true, false] {
        let (actions, outcome) =
            drive(run_create(create_request(nested)), vec![Event::Probed { exists: true }]);
        let env = if nested { EnvDir::L1 } else { EnvDir::Standalone };
        assert_eq!(outcome, Some(Err(WorkflowError::EnvironmentAlreadyExists { env })));
        assert_eq!(actions, vec![Action::ProbeDirectory { env }]);
    }
}

#[test]
fn existing_inner_directory_stops_create_after_outer() {
    let events = vec![
        Event::Probed { exists: false },
        Event::Completed,
        Event::Completed,
        Event::Probed { exists: true },
    ];
    let (actions, outcome) = drive(run_create(create_request(true)), events);
    assert_eq!(
        outcome,
        Some(Err(WorkflowError::EnvironmentAlreadyExists { env: EnvDir::L2 }))
    );
    let mut expected = create_tree(EnvDir::L1, Template::L1);
    expected.push(Action::ProbeDirectory { env: EnvDir::L2 });
    assert_eq!(actions, expected);
}

#[test]
fn second_create_with_overwrite_replaces_directory() {
    let mut request = create_request(false);
    request.overwrite = true;
    let events = vec![Event::Probed { exists: true }, Event::Completed, Event::Completed];
    let (actions, outcome) = drive(run_create(request), events);
    assert_eq!(outcome, None);
    assert_eq!(
        actions,
        vec![
            Action::ProbeDirectory { env: EnvDir::Standalone },
            Action::RemoveDirectory { env: EnvDir::Standalone },
            Action::CreateDirectory { env: EnvDir::Standalone },
            Action::CopyTemplate {
                template: Template::L2,
                env: EnvDir::Standalone,
                overwrite: false,
            },
        ]
    );
}

#[test]
fn overwrite_of_absent_directory_removes_nothing() {
    let mut request = create_request(true);
    request.overwrite = true;
    let events = vec![Event::Probed { exists: false }, Event::Completed];
    let (actions, _) = drive(run_create(request), events);
    assert_eq!(actions, create_tree(EnvDir::L1, Template::L1));
}

#[test]
fn create_standalone_with_scripts() {
    let mut request = create_request(false);
    request.bench_script = Some("bench.sh".to_string());
    request.provision_script = Some("setup.sh".to_string());
    let canonical = "/srv/project/l2-vagrant-no-nested/run-bench.sh";
    let events = vec![
        Event::Probed { exists: false },
        Event::Completed,
        Event::Completed,
        Event::Completed,
        Event::Completed,
        resolved(canonical),
        Event::Completed,
        exited(0),
        output(0, "fast\n", ""),
        Event::Completed,
    ];
    let (actions, outcome) = drive(run_create(request), events);
    assert_eq!(outcome, Some(Ok(())));
    let mut expected = create_tree(EnvDir::Standalone, Template::L2);
    expected.extend(vec![
        Action::CopyScript {
            source: "bench.sh".to_string(),
            env: EnvDir::Standalone,
            script: ScriptKind::Bench,
        },
        Action::CopyScript {
            source: "setup.sh".to_string(),
            env: EnvDir::Standalone,
            script: ScriptKind::Provision,
        },
        Action::ResolveScript { env: EnvDir::Standalone, script: ScriptKind::Bench },
        Action::WriteL2Config {
            env: EnvDir::Standalone,
            document: GeneratedL2Config {
                config: L2Config::default(),
                bench_script_path: Some(canonical.to_string()),
                network_interface: None,
                enable_provision_script: true,
            },
        },
        Action::Boot { env: EnvDir::Standalone },
        Action::RemoteCapture { env: EnvDir::Standalone, command: RemoteCommand::Bench },
        Action::Print { bytes: b"fast\n".to_vec() },
    ]);
    assert_eq!(actions, expected);
}

#[test]
fn standalone_bench_failure_shows_output_then_fails() {
    let workflow = Workflow {
        pending: vec![Operation::Boot { env: EnvDir::Standalone }],
        phase: Phase::BenchRunning { output: Some("out.txt".to_string()) },
    };
    let events = vec![output(2, "segfault\n", ""), Event::Completed];
    let start = Progress::Continue {
        workflow,
        action: Action::RemoteCapture { env: EnvDir::Standalone, command: RemoteCommand::Bench },
    };
    let (actions, outcome) = drive(start, events);
    assert_eq!(outcome, Some(Err(WorkflowError::ExternalToolFailure { status: Some(2) })));
    assert_eq!(
        actions,
        vec![
            Action::RemoteCapture { env: EnvDir::Standalone, command: RemoteCommand::Bench },
            Action::Print { bytes: b"segfault\n".to_vec() },
        ]
    );
}

#[test]
fn standalone_bench_persists_output() {
    let start = begin(vec![Operation::Bench { output: Some("out.txt".to_string()) }]);
    let (actions, outcome) = drive(start, vec![output(0, "1 2 3", "noise"), Event::Completed]);
    assert_eq!(outcome, Some(Ok(())));
    assert_eq!(
        actions,
        vec![
            Action::RemoteCapture { env: EnvDir::Standalone, command: RemoteCommand::Bench },
            Action::Persist { path: "out.txt".to_string(), bytes: b"1 2 3".to_vec() },
        ]
    );
}

#[test]
fn failed_workflow_ends_whatever_the_answer() {
    let error = WorkflowError::ExternalToolFailure { status: None };
    for event in [
        Event::Completed,
        Event::Failed { reason: "stdout closed".to_string() },
        Event::Probed { exists: true },
    ] {
        let workflow = Workflow { pending: Vec::new(), phase: Phase::Failing { error: error.clone() } };
        assert_eq!(workflow.advance(event), Progress::Done { outcome: Err(error.clone()) });
    }
}

#[test]
fn boot_failure_ends_workflow_before_bench() {
    let start = begin(vec![
        Operation::Boot { env: EnvDir::L1 },
        Operation::NestedBench { output: None },
    ]);
    let (actions, outcome) = drive(
        start,
        vec![Event::Exited { status: None, stdout: Vec::new(), stderr: Vec::new() }],
    );
    assert_eq!(outcome, Some(Err(WorkflowError::ExternalToolFailure { status: None })));
    assert_eq!(actions, vec![Action::Boot { env: EnvDir::L1 }]);
}

#[test]
fn failed_action_ends_workflow_with_its_reason() {
    let events = vec![
        Event::Probed { exists: false },
        Event::Failed { reason: "permission denied".to_string() },
    ];
    let (actions, outcome) = drive(run_create(create_request(true)), events);
    assert_eq!(
        outcome,
        Some(Err(WorkflowError::FilesystemError { reason: "permission denied".to_string() }))
    );
    assert_eq!(actions.len(), 2);
}

#[test]
fn malformed_stored_document_is_a_parse_error() {
    let mut request = provision_request(true);
    request.provision_script = Some("setup.sh".to_string());
    let events =
        vec![Event::Completed, Event::Malformed { reason: "missing field `cpus`".to_string() }];
    let (actions, outcome) = drive(run_provision(request), events);
    assert_eq!(
        outcome,
        Some(Err(WorkflowError::ConfigParseError { reason: "missing field `cpus`".to_string() }))
    );
    assert_eq!(actions.last(), Some(&Action::ReadL2Config { env: EnvDir::L2 }));
}

#[test]
fn answer_of_the_wrong_kind_fails_the_action() {
    let (actions, outcome) = drive(run_create(create_request(true)), vec![Event::Completed]);
    assert_eq!(outcome, Some(Err(WorkflowError::FilesystemError { reason: String::new() })));
    assert_eq!(actions, vec![Action::ProbeDirectory { env: EnvDir::L1 }]);

    let workflow = Workflow { pending: Vec::new(), phase: Phase::Running };
    assert_eq!(
        workflow.advance(resolved("/somewhere")),
        Progress::Done { outcome: Err(WorkflowError::FilesystemError { reason: String::new() }) }
    );
}

#[test]
fn empty_plan_is_done_at_once() {
    assert_eq!(begin(Vec::new()), Progress::Done { outcome: Ok(()) });
}

#[test]
fn only_status_zero_is_success() {
    assert!(succeeded(Some(0)));
    assert!(!succeeded(Some(1)));
    assert!(!succeeded(Some(-1)));
    assert!(!succeeded(None));
}

#[test]
fn provision_script_alone_keeps_stored_fields() {
    let mut request = provision_request(true);
    request.provision_script = Some("setup.sh".to_string());
    let stored = stored_document();
    let events = vec![
        Event::Completed,
        Event::Loaded { document: stored.clone() },
        Event::Completed,
        exited(0),
    ];
    let (actions, outcome) = drive(run_provision(request), events);
    assert_eq!(outcome, Some(Ok(())));
    let mut amended = stored;
    amended.enable_provision_script = true;
    assert_eq!(
        actions,
        vec![
            Action::CopyScript {
                source: "setup.sh".to_string(),
                env: EnvDir::L2,
                script: ScriptKind::Provision,
            },
            Action::ReadL2Config { env: EnvDir::L2 },
            Action::WriteL2Config { env: EnvDir::L2, document: amended },
            Action::ReloadWithProvision { env: EnvDir::L1 },
        ]
    );
}

#[test]
fn provision_sync_overwrites_template_files_only() {
    let mut request = provision_request(true);
    request.sync = true;
    let events = vec![Event::Completed, Event::Completed, exited(0)];
    let (actions, outcome) = drive(run_provision(request), events);
    assert_eq!(outcome, Some(Ok(())));
    assert_eq!(
        actions,
        vec![
            Action::CopyTemplate { template: Template::L1, env: EnvDir::L1, overwrite: true },
            Action::CopyTemplate { template: Template::L2, env: EnvDir::L2, overwrite: true },
            Action::ReloadWithProvision { env: EnvDir::L1 },
        ]
    );
}

#[test]
fn provision_with_overrides_regenerates_both_documents() {
    let mut request = provision_request(true);
    let l1 = L1Config {
        host_name: "outer".to_string(),
        cpus: 16,
        memory: 32768,
        cpu_mode: CpuMode::HostModel,
        network_interface: None,
        kvm_options: Default::default(),
    };
    let l2 = L2Config {
        host_name: "inner".to_string(),
        cpus: 4,
        memory: 4096,
        cpu_mode: CpuMode::Custom,
        enable_network_bridge: true,
    };
    request.l1_override = Some(l1.clone());
    request.l2_override = Some(L2Source::Nested(l2.clone()));
    let events = vec![resolved("/p/l2-vagrant"), Event::Completed, Event::Completed, exited(0)];
    let (actions, outcome) = drive(run_provision(request), events);
    assert_eq!(outcome, Some(Ok(())));
    assert_eq!(
        actions,
        vec![
            Action::ResolveDirectory { env: EnvDir::L2 },
            Action::WriteL1Config {
                env: EnvDir::L1,
                document: GeneratedL1Config {
                    config: l1,
                    arch: Architecture::Amd,
                    l2_environment_dir: "/p/l2-vagrant".to_string(),
                },
            },
            Action::WriteL2Config {
                env: EnvDir::L2,
                document: GeneratedL2Config {
                    config: l2,
                    bench_script_path: None,
                    network_interface: Some("eth0".to_string()),
                    enable_provision_script: false,
                },
            },
            Action::ReloadWithProvision { env: EnvDir::L1 },
        ]
    );
}

#[test]
fn provision_reload_failure_is_reported() {
    let (actions, outcome) = drive(run_provision(provision_request(false)), vec![exited(1)]);
    assert_eq!(outcome, Some(Err(WorkflowError::ExternalToolFailure { status: Some(1) })));
    assert_eq!(actions, vec![Action::ReloadWithProvision { env: EnvDir::Standalone }]);
}

#[test]
fn run_bench_nested_sequence() {
    let request = RunBenchRequest {
        nested: true,
        bench_script: "bench.sh".to_string(),
        output: Some("out.txt".to_string()),
    };
    let stored = stored_document();
    let events = vec![
        Event::Completed,
        Event::Loaded { document: stored.clone() },
        Event::Completed,
        exited(0),
        exited(0),
        exited(0),
        output(0, "done", ""),
        Event::Completed,
    ];
    let (actions, outcome) = drive(run_bench(request), events);
    assert_eq!(outcome, Some(Ok(())));
    let mut amended = stored;
    amended.bench_script_path = Some("/home/vagrant/l2-vagrant/run-bench.sh".to_string());
    assert_eq!(
        actions,
        vec![
            Action::CopyScript {
                source: "bench.sh".to_string(),
                env: EnvDir::L2,
                script: ScriptKind::Bench,
            },
            Action::ReadL2Config { env: EnvDir::L2 },
            Action::WriteL2Config { env: EnvDir::L2, document: amended },
            Action::Reload { env: EnvDir::L1 },
            Action::RemoteExec { env: EnvDir::L1, command: RemoteCommand::StartInner },
            Action::RemoteExec { env: EnvDir::L1, command: RemoteCommand::NestedBench },
            Action::RemoteRead { env: EnvDir::L1, file: RemoteFile::BenchResults },
            Action::Persist { path: "out.txt".to_string(), bytes: b"done".to_vec() },
        ]
    );
}

#[test]
fn run_bench_standalone_sequence() {
    let request =
        RunBenchRequest { nested: false, bench_script: "bench.sh".to_string(), output: None };
    let mut stored = stored_document();
    stored.bench_script_path = Some("/stale/run-bench.sh".to_string());
    let canonical = "/srv/p/l2-vagrant-no-nested/run-bench.sh";
    let events = vec![
        Event::Completed,
        resolved(canonical),
        Event::Loaded { document: stored.clone() },
        Event::Completed,
        exited(0),
        output(0, "done", ""),
        Event::Completed,
    ];
    let (actions, outcome) = drive(run_bench(request), events);
    assert_eq!(outcome, Some(Ok(())));
    let mut amended = stored;
    amended.bench_script_path = Some(canonical.to_string());
    assert_eq!(
        actions,
        vec![
            Action::CopyScript {
                source: "bench.sh".to_string(),
                env: EnvDir::Standalone,
                script: ScriptKind::Bench,
            },
            Action::ResolveScript { env: EnvDir::Standalone, script: ScriptKind::Bench },
            Action::ReadL2Config { env: EnvDir::Standalone },
            Action::WriteL2Config { env: EnvDir::Standalone, document: amended },
            Action::Reload { env: EnvDir::Standalone },
            Action::RemoteCapture { env: EnvDir::Standalone, command: RemoteCommand::Bench },
            Action::Print { bytes: b"done".to_vec() },
        ]
    );
}

#[test]
fn run_bench_stops_when_inner_machine_does_not_start() {
    let request =
        RunBenchRequest { nested: true, bench_script: "bench.sh".to_string(), output: None };
    let events = vec![
        Event::Completed,
        Event::Loaded { document: stored_document() },
        Event::Completed,
        exited(0),
        exited(127),
    ];
    let (actions, outcome) = drive(run_bench(request), events);
    assert_eq!(outcome, Some(Err(WorkflowError::ExternalToolFailure { status: Some(127) })));
    assert_eq!(
        actions.last(),
        Some(&Action::RemoteExec { env: EnvDir::L1, command: RemoteCommand::StartInner })
    );
}

#[test]
fn every_run_ends_within_its_bound() {
    let mut request = create_request(true);
    request.bench_script = Some("bench.sh".to_string());
    request.provision_script = Some("setup.sh".to_string());
    request.overwrite = true;
    let mut events = vec![
        Event::Probed { exists: true },
        Event::Completed,
        Event::Completed,
        Event::Completed,
        Event::Probed { exists: true },
        Event::Completed,
        Event::Completed,
        Event::Completed,
        resolved("/p/l2-vagrant"),
        Event::Completed,
        Event::Completed,
        Event::Completed,
        Event::Completed,
        exited(0),
        exited(0),
        output(0, "r", ""),
        Event::Completed,
    ];
    let answers = events.len();
    events.push(Event::Completed);
    let (actions, outcome) = drive(run_create(request), events);
    assert_eq!(outcome, Some(Ok(())));
    assert_eq!(actions.len(), answers);
    assert!(answers <= 4 + 4 + 2 + 1 + 1 + 2 + 1 + 3);
}
