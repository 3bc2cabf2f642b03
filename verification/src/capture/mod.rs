//! Capture: recording state, profiles, pipeline descriptions, output paths.
use vstd::prelude::*;

pub mod audio;
pub mod pipeline;
pub mod profile;
pub mod recording;
pub mod screenshot;

verus! {

/// Marker error: the user cancelled the capture (Esc in a picker, Cancel in
/// a portal dialog). A cancel re-arms the UI quietly; it is never shown as a
/// failure.
#[derive(Debug, Clone, Copy)]
pub struct Cancelled;

impl Cancelled {
    /// The text the marker is displayed with.
    pub fn message(&self) -> (r: &'static str)
        ensures
            r@ == "capture cancelled by user"@,
    {
        "capture cancelled by user"
    }
}

} // verus!
