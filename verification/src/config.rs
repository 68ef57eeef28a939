//! The configuration documents of the two layers, and the values they are
//! made of.
//!
//! Every document type has a view that holds its text fields as `Seq<char>`
//! and its option bag as a `Map`; the contracts of the library speak of the
//! views.

use std::collections::HashMap;
use vstd::prelude::*;
use vstd::std_specs::hash::lemma_hashmap_deepview_dom;

verus! {

/// The virtualization extension of the host. It is resolved once, before a
/// workflow starts, and is a required input of the outer layer's document.
#[derive(Clone, Copy, Debug, PartialEq, Eq, Structural)]
pub enum Architecture {
    Amd,
    Intel,
}

/// How the guest's processor is presented. The value is handed through to
/// the generated document unchanged.
#[derive(Clone, Copy, Debug, PartialEq, Eq, Structural)]
pub enum CpuMode {
    Custom,
    HostPassthrough,
    HostModel,
    Maximum,
}

impl Default for CpuMode {
    /// `Custom` is the one default of the processor mode: the built-in
    /// documents carry it, and so does an override document that leaves the
    /// field out.
    fn default() -> (mode: CpuMode)
        ensures
            mode == CpuMode::Custom,
    {
        CpuMode::Custom
    }
}

/// The text of an optional string.
pub open spec fn text_view(text: Option<String>) -> Option<Seq<char>> {
    match text {
        Some(t) => Some(t@),
        None => None,
    }
}

/// The source document of the outer layer.
#[derive(Clone, Debug, PartialEq, Eq)]
pub struct L1Config {
    pub host_name: String,
    pub cpus: u32,
    /// In MiB.
    pub memory: u64,
    pub cpu_mode: CpuMode,
    pub network_interface: Option<String>,
    pub kvm_options: HashMap<String, String>,
}

pub struct L1ConfigView {
    pub host_name: Seq<char>,
    pub cpus: u32,
    pub memory: u64,
    pub cpu_mode: CpuMode,
    pub network_interface: Option<Seq<char>>,
    pub kvm_options: Map<Seq<char>, Seq<char>>,
}

impl View for L1Config {
    type V = L1ConfigView;

    open spec fn view(&self) -> L1ConfigView {
        L1ConfigView {
            host_name: self.host_name@,
            cpus: self.cpus,
            memory: self.memory,
            cpu_mode: self.cpu_mode,
            network_interface: text_view(self.network_interface),
            kvm_options: self.kvm_options.deep_view(),
        }
    }
}

impl L1ConfigView {
    /// The built-in document of the outer layer.
    pub open spec fn built_in() -> L1ConfigView {
        L1ConfigView {
            host_name: "l1-vagrant"@,
            cpus: 2,
            memory: 4096,
            cpu_mode: CpuMode::Custom,
            network_interface: None,
            kvm_options: Map::empty(),
        }
    }
}

impl Default for L1Config {
    fn default() -> (config: L1Config)
        ensures
            config@ == L1ConfigView::built_in(),
    {
        let kvm_options: HashMap<String, String> = HashMap::new();
        proof {
            lemma_hashmap_deepview_dom(kvm_options);
            assert(kvm_options@.dom().map(|k: String| k.deep_view()) =~= Set::empty());
            assert(kvm_options.deep_view() =~= Map::empty());
        }
        L1Config {
            host_name: "l1-vagrant".to_owned(),
            cpus: 2,
            memory: 4096,
            cpu_mode: CpuMode::Custom,
            network_interface: None,
            kvm_options,
        }
    }
}

/// The source document of the inner layer in the two-layer mode.
#[derive(Clone, Debug, PartialEq, Eq)]
pub struct L2Config {
    pub host_name: String,
    pub cpus: u32,
    /// In MiB.
    pub memory: u64,
    pub cpu_mode: CpuMode,
    pub enable_network_bridge: bool,
}

pub struct L2ConfigView {
    pub host_name: Seq<char>,
    pub cpus: u32,
    pub memory: u64,
    pub cpu_mode: CpuMode,
    pub enable_network_bridge: bool,
}

impl View for L2Config {
    type V = L2ConfigView;

    open spec fn view(&self) -> L2ConfigView {
        L2ConfigView {
            host_name: self.host_name@,
            cpus: self.cpus,
            memory: self.memory,
            cpu_mode: self.cpu_mode,
            enable_network_bridge: self.enable_network_bridge,
        }
    }
}

impl L2ConfigView {
    /// The built-in document of the inner layer.
    pub open spec fn built_in() -> L2ConfigView {
        L2ConfigView {
            host_name: "l2-vagrant"@,
            cpus: 2,
            memory: 2048,
            cpu_mode: CpuMode::Custom,
            enable_network_bridge: false,
        }
    }
}

impl Default for L2Config {
    fn default() -> (config: L2Config)
        ensures
            config@ == L2ConfigView::built_in(),
    {
        L2Config {
            host_name: "l2-vagrant".to_owned(),
            cpus: 2,
            memory: 2048,
            cpu_mode: CpuMode::Custom,
            enable_network_bridge: false,
        }
    }
}

/// The source document of the single machine of the simplified mode. With no
/// outer layer to derive them, it names the interface and the provision flag
/// itself.
#[derive(Clone, Debug, PartialEq, Eq)]
pub struct L2NoNestedConfig {
    pub host_name: String,
    pub cpus: u32,
    /// In MiB.
    pub memory: u64,
    pub cpu_mode: CpuMode,
    pub network_interface: Option<String>,
    pub enable_provision_script: bool,
}

pub struct L2NoNestedConfigView {
    pub host_name: Seq<char>,
    pub cpus: u32,
    pub memory: u64,
    pub cpu_mode: CpuMode,
    pub network_interface: Option<Seq<char>>,
    pub enable_provision_script: bool,
}

impl View for L2NoNestedConfig {
    type V = L2NoNestedConfigView;

    open spec fn view(&self) -> L2NoNestedConfigView {
        L2NoNestedConfigView {
            host_name: self.host_name@,
            cpus: self.cpus,
            memory: self.memory,
            cpu_mode: self.cpu_mode,
            network_interface: text_view(self.network_interface),
            enable_provision_script: self.enable_provision_script,
        }
    }
}

impl L2NoNestedConfigView {
    /// The built-in document of the simplified mode.
    pub open spec fn built_in() -> L2NoNestedConfigView {
        L2NoNestedConfigView {
            host_name: "l2-vagrant"@,
            cpus: 2,
            memory: 2048,
            cpu_mode: CpuMode::Custom,
            network_interface: None,
            enable_provision_script: false,
        }
    }
}

impl Default for L2NoNestedConfig {
    fn default() -> (config: L2NoNestedConfig)
        ensures
            config@ == L2NoNestedConfigView::built_in(),
    {
        L2NoNestedConfig {
            host_name: "l2-vagrant".to_owned(),
            cpus: 2,
            memory: 2048,
            cpu_mode: CpuMode::Custom,
            network_interface: None,
            enable_provision_script: false,
        }
    }
}

/// An override document for the inner layer, in either of its two shapes.
#[derive(Clone, Debug, PartialEq, Eq)]
pub enum L2Source {
    Nested(L2Config),
    NoNested(L2NoNestedConfig),
}

pub enum L2SourceView {
    Nested(L2ConfigView),
    NoNested(L2NoNestedConfigView),
}

impl View for L2Source {
    type V = L2SourceView;

    open spec fn view(&self) -> L2SourceView {
        match self {
            L2Source::Nested(config) => L2SourceView::Nested(config@),
            L2Source::NoNested(config) => L2SourceView::NoNested(config@),
        }
    }
}

/// The document written into the outer layer's directory.
#[derive(Clone, Debug, PartialEq, Eq)]
pub struct GeneratedL1Config {
    pub config: L1Config,
    pub arch: Architecture,
    /// The canonical path of the sibling directory of the inner layer.
    pub l2_environment_dir: String,
}

pub struct GeneratedL1ConfigView {
    pub config: L1ConfigView,
    pub arch: Architecture,
    pub l2_environment_dir: Seq<char>,
}

impl View for GeneratedL1Config {
    type V = GeneratedL1ConfigView;

    open spec fn view(&self) -> GeneratedL1ConfigView {
        GeneratedL1ConfigView {
            config: self.config@,
            arch: self.arch,
            l2_environment_dir: self.l2_environment_dir@,
        }
    }
}

/// The document written into the inner layer's directory.
#[derive(Clone, Debug, PartialEq, Eq)]
pub struct GeneratedL2Config {
    pub config: L2Config,
    pub bench_script_path: Option<String>,
    pub network_interface: Option<String>,
    pub enable_provision_script: bool,
}

pub struct GeneratedL2ConfigView {
    pub config: L2ConfigView,
    pub bench_script_path: Option<Seq<char>>,
    pub network_interface: Option<Seq<char>>,
    pub enable_provision_script: bool,
}

impl View for GeneratedL2Config {
    type V = GeneratedL2ConfigView;

    open spec fn view(&self) -> GeneratedL2ConfigView {
        GeneratedL2ConfigView {
            config: self.config@,
            bench_script_path: text_view(self.bench_script_path),
            network_interface: text_view(self.network_interface),
            enable_provision_script: self.enable_provision_script,
        }
    }
}

impl GeneratedL2ConfigView {
    /// The bridge flag and the interface agree: an interface is named
    /// exactly when the bridge is enabled.
    pub open spec fn consistent(self) -> bool {
        self.network_interface is Some <==> self.config.enable_network_bridge
    }
}

} // verus!
