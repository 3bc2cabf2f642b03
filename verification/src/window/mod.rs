//! Window logic: the main window's state machine, the floating recording
//! bar, and the region selector overlay.
use vstd::prelude::*;

pub mod main_window;
pub mod preferences;
pub mod recording_bar;
pub mod region_selector;

verus! {
}
