//! Which changes of files mean that the gateway config has changed.

use vstd::prelude::*;

verus! {

/// What happened to a file.
#[derive(Clone, Copy, Debug, PartialEq, Eq, Structural)]
pub enum FileChange {
    Created,
    Modified,
    Accessed,
    Removed,
    Other,
}

/// Whether a change of files means that the gateway config has changed: its file was
/// created or modified.
pub fn is_config_change(change: FileChange, touches_config: bool) -> (r: bool)
    ensures
        r == (touches_config && (change == FileChange::Created || change == FileChange::Modified)),
{
    touches_config && (change == FileChange::Created || change == FileChange::Modified)
}

} // verus!
