//! The words the Patches pane shows for an operation: while it runs, what it
//! concerns, and what it achieved.

use vstd::prelude::*;
use vstd::string::*;

use crate::patch_status::{FireRatePresetID, PatchID, PatchOperation, PatchTarget};

verus! {

/// Whether a finished operation changed the executable.
#[derive(Clone, Copy, Debug, PartialEq, Eq, Structural)]
pub enum PatchChange {
    Changed,
    Unchanged,
}

/// The label shown while `operation` runs.
pub open spec fn progress_label(operation: PatchOperation) -> Seq<char> {
    match operation {
        PatchOperation::SetPatch { id: PatchID::DebugMenu, target: PatchTarget::Applied } => {
            "Applying Debug Menu"@
        },
        PatchOperation::SetPatch { id: PatchID::DebugMenu, target: PatchTarget::NotApplied } => {
            "Reverting Debug Menu"@
        },
        PatchOperation::SetPatch { id: PatchID::TerrainBounds, target: PatchTarget::Applied } => {
            "Applying Terrain Bounds Check"@
        },
        PatchOperation::SetPatch {
            id: PatchID::TerrainBounds,
            target: PatchTarget::NotApplied,
        } => "Reverting Terrain Bounds Check"@,
        PatchOperation::SetFireRate { .. } => "Changing fire rate"@,
    }
}

/// What `operation` concerns.
pub open spec fn subject(operation: PatchOperation) -> Seq<char> {
    match operation {
        PatchOperation::SetPatch { id: PatchID::DebugMenu, .. } => "Debug Menu"@,
        PatchOperation::SetPatch { id: PatchID::TerrainBounds, .. } => "Terrain Bounds Check"@,
        PatchOperation::SetFireRate { id: FireRatePresetID::Original } => "Original fire rate"@,
        PatchOperation::SetFireRate { id: FireRatePresetID::Fast } => "Fast fire rate"@,
        PatchOperation::SetFireRate { id: FireRatePresetID::Rapid } => "Rapid fire rate"@,
        PatchOperation::SetFireRate { id: FireRatePresetID::Turbo } => "Turbo fire rate"@,
    }
}

/// The message of a finished operation: that nothing needed to change, or
/// that the patch was applied or reverted or the preset selected.
pub open spec fn success_message(operation: PatchOperation, change: PatchChange) -> Seq<char> {
    if change == PatchChange::Unchanged {
        subject(operation) + " was already current"@
    } else {
        match operation {
            PatchOperation::SetPatch { target: PatchTarget::Applied, .. } => subject(operation)
                + " applied"@,
            PatchOperation::SetPatch { target: PatchTarget::NotApplied, .. } => subject(operation)
                + " reverted"@,
            PatchOperation::SetFireRate { .. } => subject(operation) + " selected"@,
        }
    }
}

/// The message of an operation that failed.
pub open spec fn failure_message(operation: PatchOperation) -> Seq<char> {
    progress_label(operation) + " failed"@
}

/// The label shown while `operation` runs.
pub fn operation_progress_label(operation: PatchOperation) -> (label: &'static str)
    ensures
        label@ == progress_label(operation),
{
    match operation {
        PatchOperation::SetPatch { id: PatchID::DebugMenu, target: PatchTarget::Applied } => {
            "Applying Debug Menu"
        },
        PatchOperation::SetPatch { id: PatchID::DebugMenu, target: PatchTarget::NotApplied } => {
            "Reverting Debug Menu"
        },
        PatchOperation::SetPatch { id: PatchID::TerrainBounds, target: PatchTarget::Applied } => {
            "Applying Terrain Bounds Check"
        },
        PatchOperation::SetPatch {
            id: PatchID::TerrainBounds,
            target: PatchTarget::NotApplied,
        } => "Reverting Terrain Bounds Check",
        PatchOperation::SetFireRate { .. } => "Changing fire rate",
    }
}

/// What `operation` concerns.
pub fn operation_subject(operation: PatchOperation) -> (text: &'static str)
    ensures
        text@ == subject(operation),
{
    match operation {
        PatchOperation::SetPatch { id: PatchID::DebugMenu, .. } => "Debug Menu",
        PatchOperation::SetPatch { id: PatchID::TerrainBounds, .. } => "Terrain Bounds Check",
        PatchOperation::SetFireRate { id: FireRatePresetID::Original } => "Original fire rate",
        PatchOperation::SetFireRate { id: FireRatePresetID::Fast } => "Fast fire rate",
        PatchOperation::SetFireRate { id: FireRatePresetID::Rapid } => "Rapid fire rate",
        PatchOperation::SetFireRate { id: FireRatePresetID::Turbo } => "Turbo fire rate",
    }
}

/// The message of a finished `operation` that made `change`.
pub fn operation_success_message(operation: PatchOperation, change: PatchChange) -> (message: String)
    ensures
        message@ == success_message(operation, change),
{
    let mut message = operation_subject(operation).to_owned();
    if change == PatchChange::Unchanged {
        message.append(" was already current");
        return message;
    }
    match operation {
        PatchOperation::SetPatch { target: PatchTarget::Applied, .. } => message.append(" applied"),
        PatchOperation::SetPatch { target: PatchTarget::NotApplied, .. } => message.append(
            " reverted",
        ),
        PatchOperation::SetFireRate { .. } => message.append(" selected"),
    }
    message
}

/// The message of an `operation` that failed.
pub fn operation_failure_message(operation: PatchOperation) -> (message: String)
    ensures
        message@ == failure_message(operation),
{
    let mut message = operation_progress_label(operation).to_owned();
    message.append(" failed");
    message
}

/// The message shown while an operation runs.
pub open spec fn in_progress_message(operation: PatchOperation) -> Seq<char> {
    progress_label(operation) + " in progress"@
}

/// The message shown while `operation` runs.
pub fn operation_in_progress_message(operation: PatchOperation) -> (message: String)
    ensures
        message@ == in_progress_message(operation),
{
    let mut message = operation_progress_label(operation).to_owned();
    message.append(" in progress");
    message
}

} // verus!
