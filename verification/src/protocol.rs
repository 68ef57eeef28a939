//! What a workflow asks its driver to do, and what the driver answers.
//!
//! The library touches neither the file system nor the lifecycle tool. A
//! workflow hands out one [`Action`] at a time; the driver performs it and
//! answers with one [`Event`].

use crate::config::{
    GeneratedL1Config, GeneratedL1ConfigView, GeneratedL2Config, GeneratedL2ConfigView,
};
use crate::layout::{EnvDir, RemoteCommand, RemoteFile, ScriptKind, Template};
use vstd::prelude::*;

verus! {

/// One piece of outside work. Each is answered by the event that its
/// comment names, or by `Event::Failed`.
#[derive(Clone, Debug, PartialEq, Eq)]
#[allow(inconsistent_fields)]
pub enum Action {
    /// Look whether the directory exists. Answer: `Probed`.
    ProbeDirectory { env: EnvDir },
    /// Remove the directory with all that is in it. Answer: `Completed`.
    RemoveDirectory { env: EnvDir },
    /// Create the directory and its missing parents. Answer: `Completed`.
    CreateDirectory { env: EnvDir },
    /// Copy what is inside the template into the directory, not the
    /// template directory itself. With `overwrite`, files that the template
    /// has replace those of the directory, and all others stay. Answer:
    /// `Completed`.
    CopyTemplate { template: Template, env: EnvDir, overwrite: bool },
    /// Copy the file at `source` into the directory under the script's
    /// fixed name, replacing an earlier copy. Answer: `Completed`.
    CopyScript { source: String, env: EnvDir, script: ScriptKind },
    /// Canonicalize the directory's path. Answer: `Resolved`.
    ResolveDirectory { env: EnvDir },
    /// Canonicalize the path of a script in the directory. Answer:
    /// `Resolved`.
    ResolveScript { env: EnvDir, script: ScriptKind },
    /// Write the document to the directory's configuration file, replacing
    /// the file as a whole. Answer: `Completed`.
    WriteL1Config { env: EnvDir, document: GeneratedL1Config },
    /// Write the document to the directory's configuration file, replacing
    /// the file as a whole. Answer: `Completed`.
    WriteL2Config { env: EnvDir, document: GeneratedL2Config },
    /// Read the directory's configuration file. Answer: `Loaded`, or
    /// `Malformed` where the file is no such document.
    ReadL2Config { env: EnvDir },
    /// Bring the machine up. Answer: `Exited`.
    Boot { env: EnvDir },
    /// Restart the machine with its current configuration. Answer:
    /// `Exited`.
    Reload { env: EnvDir },
    /// Restart the machine and provision it again. Answer: `Exited`.
    ReloadWithProvision { env: EnvDir },
    /// Run the command in the machine, its output going to the console.
    /// Answer: `Exited`.
    RemoteExec { env: EnvDir, command: RemoteCommand },
    /// Run the command in the machine and capture what it prints. Answer:
    /// `Exited`, with the output.
    RemoteCapture { env: EnvDir, command: RemoteCommand },
    /// Read the file in the machine. Answer: `Exited`, with the file's
    /// bytes as output.
    RemoteRead { env: EnvDir, file: RemoteFile },
    /// Write the bytes to the file at `path`, as they are. Answer:
    /// `Completed`.
    Persist { path: String, bytes: Vec<u8> },
    /// Print the bytes to the standard output. Answer: `Completed`.
    Print { bytes: Vec<u8> },
}

#[allow(inconsistent_fields)]
pub enum ActionView {
    ProbeDirectory { env: EnvDir },
    RemoveDirectory { env: EnvDir },
    CreateDirectory { env: EnvDir },
    CopyTemplate { template: Template, env: EnvDir, overwrite: bool },
    CopyScript { source: Seq<char>, env: EnvDir, script: ScriptKind },
    ResolveDirectory { env: EnvDir },
    ResolveScript { env: EnvDir, script: ScriptKind },
    WriteL1Config { env: EnvDir, document: GeneratedL1ConfigView },
    WriteL2Config { env: EnvDir, document: GeneratedL2ConfigView },
    ReadL2Config { env: EnvDir },
    Boot { env: EnvDir },
    Reload { env: EnvDir },
    ReloadWithProvision { env: EnvDir },
    RemoteExec { env: EnvDir, command: RemoteCommand },
    RemoteCapture { env: EnvDir, command: RemoteCommand },
    RemoteRead { env: EnvDir, file: RemoteFile },
    Persist { path: Seq<char>, bytes: Seq<u8> },
    Print { bytes: Seq<u8> },
}

impl View for Action {
    type V = ActionView;

    open spec fn view(&self) -> ActionView {
        match self {
            Action::ProbeDirectory { env } => ActionView::ProbeDirectory { env: *env },
            Action::RemoveDirectory { env } => ActionView::RemoveDirectory { env: *env },
            Action::CreateDirectory { env } => ActionView::CreateDirectory { env: *env },
            Action::CopyTemplate { template, env, overwrite } => ActionView::CopyTemplate {
                template: *template,
                env: *env,
                overwrite: *overwrite,
            },
            Action::CopyScript { source, env, script } => ActionView::CopyScript {
                source: source@,
                env: *env,
                script: *script,
            },
            Action::ResolveDirectory { env } => ActionView::ResolveDirectory { env: *env },
            Action::ResolveScript { env, script } => ActionView::ResolveScript {
                env: *env,
                script: *script,
            },
            Action::WriteL1Config { env, document } => ActionView::WriteL1Config {
                env: *env,
                document: document@,
            },
            Action::WriteL2Config { env, document } => ActionView::WriteL2Config {
                env: *env,
                document: document@,
            },
            Action::ReadL2Config { env } => ActionView::ReadL2Config { env: *env },
            Action::Boot { env } => ActionView::Boot { env: *env },
            Action::Reload { env } => ActionView::Reload { env: *env },
            Action::ReloadWithProvision { env } => ActionView::ReloadWithProvision { env: *env },
            Action::RemoteExec { env, command } => ActionView::RemoteExec {
                env: *env,
                command: *command,
            },
            Action::RemoteCapture { env, command } => ActionView::RemoteCapture {
                env: *env,
                command: *command,
            },
            Action::RemoteRead { env, file } => ActionView::RemoteRead { env: *env, file: *file },
            Action::Persist { path, bytes } => ActionView::Persist { path: path@, bytes: bytes@ },
            Action::Print { bytes } => ActionView::Print { bytes: bytes@ },
        }
    }
}

impl ActionView {
    /// Whether the action changes what is on disk in an environment
    /// directory.
    pub open spec fn changes_environment(self) -> bool {
        match self {
            ActionView::RemoveDirectory { .. } => true,
            ActionView::CreateDirectory { .. } => true,
            ActionView::CopyTemplate { .. } => true,
            ActionView::CopyScript { .. } => true,
            ActionView::WriteL1Config { .. } => true,
            ActionView::WriteL2Config { .. } => true,
            _ => false,
        }
    }
}

/// The driver's answer to an action.
#[derive(Clone, Debug, PartialEq, Eq)]
pub enum Event {
    /// The action was done and has nothing to report.
    Completed,
    /// Whether the probed directory exists.
    Probed { exists: bool },
    /// The canonical path.
    Resolved { path: String },
    /// The document that the configuration file holds.
    Loaded { document: GeneratedL2Config },
    /// The lifecycle tool ended. `status` is `None` where it ended without
    /// one; `stdout` and `stderr` hold what was captured, and are empty
    /// where nothing was.
    Exited { status: Option<i32>, stdout: Vec<u8>, stderr: Vec<u8> },
    /// The action could not be carried out.
    Failed { reason: String },
    /// The configuration file was read but is no valid document.
    Malformed { reason: String },
}

pub enum EventView {
    Completed,
    Probed { exists: bool },
    Resolved { path: Seq<char> },
    Loaded { document: GeneratedL2ConfigView },
    Exited { status: Option<i32>, stdout: Seq<u8>, stderr: Seq<u8> },
    Failed { reason: Seq<char> },
    Malformed { reason: Seq<char> },
}

impl View for Event {
    type V = EventView;

    open spec fn view(&self) -> EventView {
        match self {
            Event::Completed => EventView::Completed,
            Event::Probed { exists } => EventView::Probed { exists: *exists },
            Event::Resolved { path } => EventView::Resolved { path: path@ },
            Event::Loaded { document } => EventView::Loaded { document: document@ },
            Event::Exited { status, stdout, stderr } => EventView::Exited {
                status: *status,
                stdout: stdout@,
                stderr: stderr@,
            },
            Event::Failed { reason } => EventView::Failed { reason: reason@ },
            Event::Malformed { reason } => EventView::Malformed { reason: reason@ },
        }
    }
}

/// Whether the lifecycle tool reported success: it ended with status zero.
pub open spec fn spec_succeeded(status: Option<i32>) -> bool {
    status == Some(0i32)
}

/// Whether the lifecycle tool reported success.
pub fn succeeded(status: Option<i32>) -> (ok: bool)
    ensures
        ok == spec_succeeded(status),
{
    match status {
        Some(code) => code == 0,
        None => false,
    }
}

} // verus!
