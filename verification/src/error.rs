//! The ways in which a workflow ends without success.

use crate::layout::EnvDir;
use vstd::prelude::*;

verus! {

/// Why a workflow stopped. The first failure ends the workflow: nothing is
/// retried, and what was done before it stays in place.
#[derive(Clone, Debug, PartialEq, Eq)]
pub enum WorkflowError {
    /// A configuration document is malformed or lacks a required field.
    ConfigParseError { reason: String },
    /// The directory exists and was not to be overwritten.
    EnvironmentAlreadyExists { env: EnvDir },
    /// A copy, a creation, a removal or a path resolution failed.
    FilesystemError { reason: String },
    /// The lifecycle tool did not end with status zero; `None` where it
    /// ended without a status.
    ExternalToolFailure { status: Option<i32> },
    /// The benchmark ran, but its results could not be read back. Holds
    /// what the tool wrote to its diagnostic stream.
    ResultRetrievalFailure { diagnostics: Vec<u8> },
    /// The host shows no marker of a virtualization extension.
    NoSupportedVirtualizationExtension,
}

pub enum WorkflowErrorView {
    ConfigParseError { reason: Seq<char> },
    EnvironmentAlreadyExists { env: EnvDir },
    FilesystemError { reason: Seq<char> },
    ExternalToolFailure { status: Option<i32> },
    ResultRetrievalFailure { diagnostics: Seq<u8> },
    NoSupportedVirtualizationExtension,
}

impl View for WorkflowError {
    type V = WorkflowErrorView;

    open spec fn view(&self) -> WorkflowErrorView {
        match self {
            WorkflowError::ConfigParseError { reason } => WorkflowErrorView::ConfigParseError {
                reason: reason@,
            },
            WorkflowError::EnvironmentAlreadyExists { env } => {
                WorkflowErrorView::EnvironmentAlreadyExists { env: *env }
            },
            WorkflowError::FilesystemError { reason } => WorkflowErrorView::FilesystemError {
                reason: reason@,
            },
            WorkflowError::ExternalToolFailure { status } => {
                WorkflowErrorView::ExternalToolFailure { status: *status }
            },
            WorkflowError::ResultRetrievalFailure { diagnostics } => {
                WorkflowErrorView::ResultRetrievalFailure { diagnostics: diagnostics@ }
            },
            WorkflowError::NoSupportedVirtualizationExtension => {
                WorkflowErrorView::NoSupportedVirtualizationExtension
            },
        }
    }
}

} // verus!
