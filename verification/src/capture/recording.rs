//! The recording lifecycle states.
use vstd::prelude::*;

verus! {

#[derive(Debug, Clone, Copy, PartialEq, Eq, Structural)]
pub enum RecordingState {
    Idle,
    Ready,
    Delayed,
    Recording,
    Paused,
    Flushing,
}

impl Default for RecordingState {
    fn default() -> (r: Self)
        ensures
            r == RecordingState::Idle,
    {
        RecordingState::Idle
    }
}

} // verus!
