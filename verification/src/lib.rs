//! mediaSnare's capture logic: the main window's state machine, the
//! recording bar and region selector decisions, profile selection, pipeline
//! descriptions, output paths, and the portal reply handling.
use vstd::prelude::*;

pub mod capture;
pub mod portal;
pub mod settings;
pub mod text;
pub mod window;

verus! {
}
