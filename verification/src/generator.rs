//! Builds the document of each layer from an optional override document and
//! the values that only the workflow knows.
//!
//! An override replaces the built-in document as a whole: no field of the
//! built-in document shows through an override.

use crate::config::{
    text_view, Architecture, GeneratedL1Config, GeneratedL1ConfigView, GeneratedL2Config,
    GeneratedL2ConfigView, L1Config, L1ConfigView, L2Config, L2ConfigView, L2Source,
    L2SourceView,
};
use vstd::prelude::*;

verus! {

/// Where the benchmark script stands inside the outer machine, which mounts
/// the inner layer's directory at a fixed place.
pub open spec fn spec_in_guest_bench_script() -> Seq<char> {
    "/home/vagrant/l2-vagrant/run-bench.sh"@
}

/// The one interface that a bridge can be put on.
pub open spec fn spec_bridge_interface() -> Seq<char> {
    "eth0"@
}

/// The document of the outer layer: the override if there is one, else the
/// built-in document, with the architecture and the inner layer's directory.
pub open spec fn spec_build_l1(
    source: Option<L1ConfigView>,
    arch: Architecture,
    l2_dir: Seq<char>,
) -> GeneratedL1ConfigView {
    GeneratedL1ConfigView {
        config: match source {
            Some(config) => config,
            None => L1ConfigView::built_in(),
        },
        arch,
        l2_environment_dir: l2_dir,
    }
}

/// The path that a document names for the benchmark script: none without a
/// script, the fixed in-guest path in the two-layer mode, and the script's
/// own host path otherwise.
pub open spec fn spec_bench_script_path(bench_script: Option<Seq<char>>, nested: bool) -> Option<
    Seq<char>,
> {
    match bench_script {
        None => None,
        Some(host_path) => if nested {
            Some(spec_in_guest_bench_script())
        } else {
            Some(host_path)
        },
    }
}

/// The document of the inner layer that a source document gives.
///
/// A source in the two-layer shape gets the bridge interface exactly when
/// it enables the bridge. A source in the simplified shape names its
/// interface itself, and the bridge flag follows it; its provision flag
/// stays set once it is set.
pub open spec fn spec_generate_l2(
    source: L2SourceView,
    bench_script: Option<Seq<char>>,
    provision_script: bool,
    nested: bool,
) -> GeneratedL2ConfigView {
    match source {
        L2SourceView::Nested(config) => GeneratedL2ConfigView {
            config,
            bench_script_path: spec_bench_script_path(bench_script, nested),
            network_interface: if config.enable_network_bridge {
                Some(spec_bridge_interface())
            } else {
                None
            },
            enable_provision_script: provision_script,
        },
        L2SourceView::NoNested(config) => GeneratedL2ConfigView {
            config: L2ConfigView {
                host_name: config.host_name,
                cpus: config.cpus,
                memory: config.memory,
                cpu_mode: config.cpu_mode,
                enable_network_bridge: config.network_interface is Some,
            },
            bench_script_path: spec_bench_script_path(bench_script, nested),
            network_interface: config.network_interface,
            enable_provision_script: config.enable_provision_script || provision_script,
        },
    }
}

/// The document of the inner layer: generated from the override if there is
/// one, else from the built-in document.
pub open spec fn spec_build_l2(
    source: Option<L2SourceView>,
    bench_script: Option<Seq<char>>,
    provision_script: bool,
    nested: bool,
) -> GeneratedL2ConfigView {
    spec_generate_l2(
        match source {
            Some(source) => source,
            None => L2SourceView::Nested(L2ConfigView::built_in()),
        },
        bench_script,
        provision_script,
        nested,
    )
}

/// A stored document of the inner layer after new scripts were put beside
/// it: a new benchmark script replaces the path, a new provision script sets
/// the flag, and every other field stays as it was.
pub open spec fn spec_amend_l2(
    existing: GeneratedL2ConfigView,
    bench_script: Option<Seq<char>>,
    provision_script: bool,
    nested: bool,
) -> GeneratedL2ConfigView {
    GeneratedL2ConfigView {
        bench_script_path: if bench_script is Some {
            spec_bench_script_path(bench_script, nested)
        } else {
            existing.bench_script_path
        },
        enable_provision_script: existing.enable_provision_script || provision_script,
        ..existing
    }
}

/// The view of an optional override of the outer layer.
pub open spec fn l1_source_view(source: Option<L1Config>) -> Option<L1ConfigView> {
    match source {
        Some(config) => Some(config@),
        None => None,
    }
}

/// Builds the document of the outer layer. `l2_dir` is the canonical path
/// of the inner layer's directory.
pub fn build_l1(source: Option<L1Config>, arch: Architecture, l2_dir: String) -> (generated:
    GeneratedL1Config)
    ensures
        generated@ == spec_build_l1(l1_source_view(source), arch, l2_dir@),
{
    let config = match source {
        Some(config) => config,
        None => L1Config::default(),
    };
    GeneratedL1Config { config, arch, l2_environment_dir: l2_dir }
}

/// The path that a document names for the benchmark script. `bench_script`
/// is the script's canonical path on the host.
pub fn bench_script_path(bench_script: Option<String>, nested: bool) -> (path: Option<String>)
    ensures
        text_view(path) == spec_bench_script_path(text_view(bench_script), nested),
{
    match bench_script {
        None => None,
        Some(host_path) => if nested {
            Some("/home/vagrant/l2-vagrant/run-bench.sh".to_owned())
        } else {
            Some(host_path)
        },
    }
}

/// The view of an optional override of the inner layer.
pub open spec fn source_view(source: Option<L2Source>) -> Option<L2SourceView> {
    match source {
        Some(source) => Some(source@),
        None => None,
    }
}

/// Builds the document of the inner layer. `bench_script` is the canonical
/// host path of the benchmark script if one was supplied, and
/// `provision_script` says whether a provision script was.
pub fn build_l2(
    source: Option<L2Source>,
    bench_script: Option<String>,
    provision_script: bool,
    nested: bool,
) -> (generated: GeneratedL2Config)
    ensures
        generated@ == spec_build_l2(
            source_view(source),
            text_view(bench_script),
            provision_script,
            nested,
        ),
        generated@.consistent(),
        generated@.bench_script_path is Some <==> bench_script is Some,
{
    let path = bench_script_path(bench_script, nested);
    let source = match source {
        Some(source) => source,
        None => L2Source::Nested(L2Config::default()),
    };
    match source {
        L2Source::Nested(config) => {
            let network_interface = if config.enable_network_bridge {
                Some("eth0".to_owned())
            } else {
                None
            };
            GeneratedL2Config {
                config,
                bench_script_path: path,
                network_interface,
                enable_provision_script: provision_script,
            }
        },
        L2Source::NoNested(config) => {
            let enable_network_bridge = config.network_interface.is_some();
            GeneratedL2Config {
                config: L2Config {
                    host_name: config.host_name,
                    cpus: config.cpus,
                    memory: config.memory,
                    cpu_mode: config.cpu_mode,
                    enable_network_bridge,
                },
                bench_script_path: path,
                network_interface: config.network_interface,
                enable_provision_script: config.enable_provision_script || provision_script,
            }
        },
    }
}

/// Amends a stored document of the inner layer in place of building it
/// anew, so that nothing that was configured before is lost.
pub fn amend_l2(
    existing: GeneratedL2Config,
    bench_script: Option<String>,
    provision_script: bool,
    nested: bool,
) -> (amended: GeneratedL2Config)
    ensures
        amended@ == spec_amend_l2(existing@, text_view(bench_script), provision_script, nested),
{
    let GeneratedL2Config {
        config,
        bench_script_path: stored_path,
        network_interface,
        enable_provision_script,
    } = existing;
    let path = if bench_script.is_some() {
        bench_script_path(bench_script, nested)
    } else {
        stored_path
    };
    GeneratedL2Config {
        config,
        bench_script_path: path,
        network_interface,
        enable_provision_script: enable_provision_script || provision_script,
    }
}

} // verus!
