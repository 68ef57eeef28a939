//! What is learned about the host before a workflow starts.

use crate::config::Architecture;
use crate::error::{WorkflowError, WorkflowErrorView};
use vstd::prelude::*;

verus! {

/// The architecture that the two markers show. The Intel marker is looked
/// at first.
pub open spec fn spec_detect_architecture(intel_marker: bool, amd_marker: bool) -> Option<
    Architecture,
> {
    if intel_marker {
        Some(Architecture::Intel)
    } else if amd_marker {
        Some(Architecture::Amd)
    } else {
        None
    }
}

/// Resolves the host's architecture from the presence of the two kernel
/// module markers, or reports that the host has no virtualization extension
/// that is known here.
pub fn detect_architecture(intel_marker: bool, amd_marker: bool) -> (arch: Result<
    Architecture,
    WorkflowError,
>)
    ensures
        match spec_detect_architecture(intel_marker, amd_marker) {
            Some(found) => arch == Ok::<Architecture, WorkflowError>(found),
            None => arch is Err
                && arch->Err_0@ == WorkflowErrorView::NoSupportedVirtualizationExtension,
        },
{
    if intel_marker {
        Ok(Architecture::Intel)
    } else if amd_marker {
        Ok(Architecture::Amd)
    } else {
        Err(WorkflowError::NoSupportedVirtualizationExtension)
    }
}

} // verus!
