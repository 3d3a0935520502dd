//! Window-related configuration values consumed by the event-loop target:
//! the application theme and the progress-indicator state.

use vstd::prelude::*;

verus! {

/// The system theme requested for the application.
#[derive(Clone, Copy, Debug, PartialEq, Eq, Hash, Structural)]
pub enum Theme {
    Light,
    Dark,
}

/// The state of a progress indicator.
#[derive(Clone, Copy, Debug, PartialEq, Eq, Hash, Structural)]
pub enum ProgressState {
    Normal,
    Indeterminate,
    Paused,
    Error,
}

/// A progress-indicator request: an optional percentage and an optional state.
#[derive(Clone, Copy, Debug, PartialEq, Eq, Hash, Structural)]
pub struct ProgressBarState {
    /// Progress percentage, expected in `0..=100`.
    pub progress: Option<u64>,
    pub state: Option<ProgressState>,
}

} // verus!
