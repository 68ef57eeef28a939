//! Names of the directories, files and remote commands that make up an
//! environment.

use vstd::prelude::*;

verus! {

/// An environment directory below the project directory.
#[derive(Clone, Copy, Debug, PartialEq, Eq, Structural)]
pub enum EnvDir {
    /// The outer virtual machine, which hosts the inner one.
    L1,
    /// The inner virtual machine of the two-layer mode.
    L2,
    /// The single virtual machine of the simplified mode.
    Standalone,
}

/// A template tree below the resource directory.
#[derive(Clone, Copy, Debug, PartialEq, Eq, Structural)]
pub enum Template {
    L1,
    L2,
}

/// A script that a user supplies and that is copied into an environment
/// under a fixed name.
#[derive(Clone, Copy, Debug, PartialEq, Eq, Structural)]
pub enum ScriptKind {
    Bench,
    Provision,
}

/// A command run over the remote shell of an environment.
#[derive(Clone, Copy, Debug, PartialEq, Eq, Structural)]
pub enum RemoteCommand {
    /// On the outer machine: runs the benchmark in the inner machine.
    NestedBench,
    /// On the single machine: runs the benchmark script itself.
    Bench,
    /// On the outer machine: brings the inner machine up and provisions it.
    StartInner,
}

/// A file read over the remote shell of an environment.
#[derive(Clone, Copy, Debug, PartialEq, Eq, Structural)]
pub enum RemoteFile {
    /// What the benchmark left on the outer machine.
    BenchResults,
}

impl EnvDir {
    /// The directory's name below the project directory.
    pub open spec fn spec_dir_name(self) -> Seq<char> {
        match self {
            EnvDir::L1 => "l1-vagrant"@,
            EnvDir::L2 => "l2-vagrant"@,
            EnvDir::Standalone => "l2-vagrant-no-nested"@,
        }
    }

    /// The directory's name below the project directory.
    pub fn dir_name(self) -> (name: &'static str)
        ensures
            name@ == self.spec_dir_name(),
    {
        match self {
            EnvDir::L1 => "l1-vagrant",
            EnvDir::L2 => "l2-vagrant",
            EnvDir::Standalone => "l2-vagrant-no-nested",
        }
    }

    /// The template that the directory is created from. The single machine
    /// of the simplified mode is an inner machine without its host.
    pub open spec fn spec_template(self) -> Template {
        match self {
            EnvDir::L1 => Template::L1,
            EnvDir::L2 => Template::L2,
            EnvDir::Standalone => Template::L2,
        }
    }

    /// The template that the directory is created from.
    pub fn template(self) -> (template: Template)
        ensures
            template == self.spec_template(),
    {
        match self {
            EnvDir::L1 => Template::L1,
            EnvDir::L2 => Template::L2,
            EnvDir::Standalone => Template::L2,
        }
    }
}

/// The directory whose machine the lifecycle tool drives: the outer machine
/// in the two-layer mode, the single machine otherwise.
pub open spec fn spec_top_env(nested: bool) -> EnvDir {
    if nested {
        EnvDir::L1
    } else {
        EnvDir::Standalone
    }
}

/// The directory whose machine the lifecycle tool drives.
pub fn top_env(nested: bool) -> (env: EnvDir)
    ensures
        env == spec_top_env(nested),
{
    if nested {
        EnvDir::L1
    } else {
        EnvDir::Standalone
    }
}

/// The directory of the innermost machine, where the scripts go.
pub open spec fn spec_inner_env(nested: bool) -> EnvDir {
    if nested {
        EnvDir::L2
    } else {
        EnvDir::Standalone
    }
}

/// The directory of the innermost machine, where the scripts go.
pub fn inner_env(nested: bool) -> (env: EnvDir)
    ensures
        env == spec_inner_env(nested),
{
    if nested {
        EnvDir::L2
    } else {
        EnvDir::Standalone
    }
}

impl Template {
    /// The template's name below the resource directory.
    pub open spec fn spec_dir_name(self) -> Seq<char> {
        match self {
            Template::L1 => "l1-vagrant-template"@,
            Template::L2 => "l2-vagrant-template"@,
        }
    }

    /// The template's name below the resource directory.
    pub fn dir_name(self) -> (name: &'static str)
        ensures
            name@ == self.spec_dir_name(),
    {
        match self {
            Template::L1 => "l1-vagrant-template",
            Template::L2 => "l2-vagrant-template",
        }
    }
}

impl ScriptKind {
    /// The name under which the script stands in an environment.
    pub open spec fn spec_file_name(self) -> Seq<char> {
        match self {
            ScriptKind::Bench => "run-bench.sh"@,
            ScriptKind::Provision => "init.sh"@,
        }
    }

    /// The name under which the script stands in an environment.
    pub fn file_name(self) -> (name: &'static str)
        ensures
            name@ == self.spec_file_name(),
    {
        match self {
            ScriptKind::Bench => "run-bench.sh",
            ScriptKind::Provision => "init.sh",
        }
    }
}

/// The name of the generated document in an environment.
pub open spec fn spec_config_file_name() -> Seq<char> {
    "config.yaml"@
}

/// The name of the generated document in an environment.
pub fn config_file_name() -> (name: &'static str)
    ensures
        name@ == spec_config_file_name(),
{
    "config.yaml"
}

impl RemoteCommand {
    /// The command line handed to the remote shell.
    pub open spec fn spec_command_line(self) -> Seq<char> {
        match self {
            RemoteCommand::NestedBench => "./run-l2-bench.sh"@,
            RemoteCommand::Bench => "./run-bench.sh"@,
            RemoteCommand::StartInner => "cd /home/vagrant/l2-vagrant && vagrant up --provision"@,
        }
    }

    /// The command line handed to the remote shell.
    pub fn command_line(self) -> (line: &'static str)
        ensures
            line@ == self.spec_command_line(),
    {
        match self {
            RemoteCommand::NestedBench => "./run-l2-bench.sh",
            RemoteCommand::Bench => "./run-bench.sh",
            RemoteCommand::StartInner => "cd /home/vagrant/l2-vagrant && vagrant up --provision",
        }
    }
}

impl RemoteFile {
    /// The file's path, relative to the remote shell's working directory.
    pub open spec fn spec_path(self) -> Seq<char> {
        match self {
            RemoteFile::BenchResults => "./bench-results.txt"@,
        }
    }

    /// The file's path, relative to the remote shell's working directory.
    pub fn path(self) -> (path: &'static str)
        ensures
            path@ == self.spec_path(),
    {
        match self {
            RemoteFile::BenchResults => "./bench-results.txt",
        }
    }
}

} // verus!
