//! State model: value types for the two independently evolving state axes.

use vstd::prelude::*;

verus! {

/// State of the upload page. Progress is measured in hundredths of the
/// whole operation, so a well-formed value lies between zero and one
/// hundred inclusive.
#[derive(Debug, Clone, Copy, PartialEq, Eq, Structural)]
pub enum UploadState {
    /// No operation in flight
    Idle,
    /// Operation active at the given progress (hundredths)
    Uploading { progress: u8 },
    /// Cancellation requested, operation not yet confirmed stopped
    Cancelling,
}

/// State of the window. `Closed` is terminal: once the engine processes
/// it, teardown begins and no later state value is meaningful.
#[derive(Debug, Clone, Copy, PartialEq, Eq, Structural)]
pub enum WindowState {
    /// Window is shown
    Shown,
    /// Window is hidden (resident in the tray)
    Hidden,
    /// Window is closed; the process shuts down
    Closed,
}

impl UploadState {
    /// A progress value never exceeds completion.
    pub open spec fn wf(self) -> bool {
        match self {
            UploadState::Uploading { progress } => progress <= 100,
            _ => true,
        }
    }
}

} // verus!
