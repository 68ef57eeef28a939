use nested_bench::config::{Architecture, CpuMode, L1Config, L2Config, L2Source};
use nested_bench::layout::{EnvDir, ScriptKind};
use nested_bench::plan::{
    plan_create, plan_provision, plan_run_bench, CreateRequest, Operation, ProvisionRequest,
    RunBenchRequest,
};

fn create_request(nested: bool) -> CreateRequest {
    CreateRequest {
        nested,
        overwrite: false,
        arch: Architecture::Intel,
        l1_override: None,
        l2_override: None,
        bench_script: None,
        provision_script: None,
        output: None,
    }
}

fn provision_request(nested: bool) -> ProvisionRequest {
    ProvisionRequest {
        nested,
        sync: false,
        arch: Architecture::Amd,
        l1_override: None,
        l2_override: None,
        bench_script: None,
        provision_script: None,
        output: None,
    }
}

fn l2_source() -> L2Source {
    L2Source::Nested(L2Config {
        host_name: "inner".to_string(),
        cpus: 1,
        memory: 512,
        cpu_mode: CpuMode::HostModel,
        enable_network_bridge: true,
    })
}

#[test]
fn plan_create_nested_plain() {
    assert_eq!(
        plan_create(create_request(true)),
        vec![
            Operation::CreateEnvironment { env: EnvDir::L1, overwrite: false },
            Operation::CreateEnvironment { env: EnvDir::L2, overwrite: false },
            Operation::GenerateL1 { source: None, arch: Architecture::Intel },
            Operation::GenerateL2 {
                source: None,
                bench_script: None,
                provision_script: false,
                nested: true,
            },
            Operation::Boot { env: EnvDir::L1 },
        ]
    );
}

#[test]
fn plan_create_nested_with_everything() {
    let mut request = create_request(true);
    request.overwrite = true;
    request.l1_override = Some(L1Config::default());
    request.l2_override = Some(l2_source());
    request.bench_script = Some("bench.sh".to_string());
    request.provision_script = Some("setup.sh".to_string());
    request.output = Some("out.txt".to_string());
    assert_eq!(
        plan_create(request),
        vec![
            Operation::CreateEnvironment { env: EnvDir::L1, overwrite: true },
            Operation::CreateEnvironment { env: EnvDir::L2, overwrite: true },
            Operation::GenerateL1 { source: Some(L1Config::default()), arch: Architecture::Intel },
            Operation::InjectScript {
                env: EnvDir::L2,
                script: ScriptKind::Bench,
                source: "bench.sh".to_string(),
            },
            Operation::InjectScript {
                env: EnvDir::L2,
                script: ScriptKind::Provision,
                source: "setup.sh".to_string(),
            },
            Operation::GenerateL2 {
                source: Some(l2_source()),
                bench_script: Some("bench.sh".to_string()),
                provision_script: true,
                nested: true,
            },
            Operation::Boot { env: EnvDir::L1 },
            Operation::NestedBench { output: Some("out.txt".to_string()) },
        ]
    );
}

#[test]
fn plan_create_standalone_with_bench() {
    let mut request = create_request(false);
    request.bench_script = Some("bench.sh".to_string());
    assert_eq!(
        plan_create(request),
        vec![
            Operation::CreateEnvironment { env: EnvDir::Standalone, overwrite: false },
            Operation::InjectScript {
                env: EnvDir::Standalone,
                script: ScriptKind::Bench,
                source: "bench.sh".to_string(),
            },
            Operation::GenerateL2 {
                source: None,
                bench_script: Some("bench.sh".to_string()),
                provision_script: false,
                nested: false,
            },
            Operation::Boot { env: EnvDir::Standalone },
            Operation::Bench { output: None },
        ]
    );
}

#[test]
fn plan_create_standalone_ignores_l1_override() {
    let mut request = create_request(false);
    request.l1_override = Some(L1Config::default());
    assert_eq!(
        plan_create(request),
        vec![
            Operation::CreateEnvironment { env: EnvDir::Standalone, overwrite: false },
            Operation::GenerateL2 {
                source: None,
                bench_script: None,
                provision_script: false,
                nested: false,
            },
            Operation::Boot { env: EnvDir::Standalone },
        ]
    );
}

#[test]
fn plan_provision_with_nothing_new_only_reloads() {
    assert_eq!(
        plan_provision(provision_request(true)),
        vec![Operation::ReloadWithProvision { env: EnvDir::L1 }]
    );
    assert_eq!(
        plan_provision(provision_request(false)),
        vec![Operation::ReloadWithProvision { env: EnvDir::Standalone }]
    );
}

#[test]
fn plan_provision_sync_copies_templates_first() {
    let mut nested = provision_request(true);
    nested.sync = true;
    assert_eq!(
        plan_provision(nested),
        vec![
            Operation::Resync { env: EnvDir::L1 },
            Operation::Resync { env: EnvDir::L2 },
            Operation::ReloadWithProvision { env: EnvDir::L1 },
        ]
    );
    let mut standalone = provision_request(false);
    standalone.sync = true;
    assert_eq!(
        plan_provision(standalone),
        vec![
            Operation::Resync { env: EnvDir::Standalone },
            Operation::ReloadWithProvision { env: EnvDir::Standalone },
        ]
    );
}

#[test]
fn plan_provision_regenerates_documents_from_overrides() {
    let mut request = provision_request(true);
    request.l1_override = Some(L1Config::default());
    request.l2_override = Some(l2_source());
    request.bench_script = Some("bench.sh".to_string());
    assert_eq!(
        plan_provision(request),
        vec![
            Operation::GenerateL1 { source: Some(L1Config::default()), arch: Architecture::Amd },
            Operation::InjectScript {
                env: EnvDir::L2,
                script: ScriptKind::Bench,
                source: "bench.sh".to_string(),
            },
            Operation::GenerateL2 {
                source: Some(l2_source()),
                bench_script: Some("bench.sh".to_string()),
                provision_script: false,
                nested: true,
            },
            Operation::ReloadWithProvision { env: EnvDir::L1 },
            Operation::NestedBench { output: None },
        ]
    );
}

#[test]
fn plan_provision_script_alone_amends_stored_document() {
    let mut request = provision_request(true);
    request.provision_script = Some("setup.sh".to_string());
    assert_eq!(
        plan_provision(request),
        vec![
            Operation::InjectScript {
                env: EnvDir::L2,
                script: ScriptKind::Provision,
                source: "setup.sh".to_string(),
            },
            Operation::AmendL2 { bench_script: None, provision_script: true, nested: true },
            Operation::ReloadWithProvision { env: EnvDir::L1 },
        ]
    );
}

#[test]
fn plan_provision_standalone_script_and_bench() {
    let mut request = provision_request(false);
    request.provision_script = Some("setup.sh".to_string());
    request.bench_script = Some("bench.sh".to_string());
    request.output = Some("results.txt".to_string());
    request.l1_override = Some(L1Config::default());
    assert_eq!(
        plan_provision(request),
        vec![
            Operation::InjectScript {
                env: EnvDir::Standalone,
                script: ScriptKind::Bench,
                source: "bench.sh".to_string(),
            },
            Operation::InjectScript {
                env: EnvDir::Standalone,
                script: ScriptKind::Provision,
                source: "setup.sh".to_string(),
            },
            Operation::AmendL2 {
                bench_script: Some("bench.sh".to_string()),
                provision_script: true,
                nested: false,
            },
            Operation::ReloadWithProvision { env: EnvDir::Standalone },
            Operation::Bench { output: Some("results.txt".to_string()) },
        ]
    );
}

#[test]
fn plan_provision_bench_alone_leaves_documents() {
    let mut request = provision_request(true);
    request.bench_script = Some("bench.sh".to_string());
    assert_eq!(
        plan_provision(request),
        vec![
            Operation::ReloadWithProvision { env: EnvDir::L1 },
            Operation::NestedBench { output: None },
        ]
    );
}

#[test]
fn plan_run_bench_nested() {
    let request = RunBenchRequest {
        nested: true,
        bench_script: "bench.sh".to_string(),
        output: Some("out.txt".to_string()),
    };
    assert_eq!(
        plan_run_bench(request),
        vec![
            Operation::InjectScript {
                env: EnvDir::L2,
                script: ScriptKind::Bench,
                source: "bench.sh".to_string(),
            },
            Operation::AmendL2 {
                bench_script: Some("bench.sh".to_string()),
                provision_script: false,
                nested: true,
            },
            Operation::Reload { env: EnvDir::L1 },
            Operation::StartInner,
            Operation::NestedBench { output: Some("out.txt".to_string()) },
        ]
    );
}

#[test]
fn plan_run_bench_standalone() {
    let request =
        RunBenchRequest { nested: false, bench_script: "bench.sh".to_string(), output: None };
    assert_eq!(
        plan_run_bench(request),
        vec![
            Operation::InjectScript {
                env: EnvDir::Standalone,
                script: ScriptKind::Bench,
                source: "bench.sh".to_string(),
            },
            Operation::AmendL2 {
                bench_script: Some("bench.sh".to_string()),
                provision_script: false,
                nested: false,
            },
            Operation::Reload { env: EnvDir::Standalone },
            Operation::Bench { output: None },
        ]
    );
}
