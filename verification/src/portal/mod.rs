//! xdg-desktop-portal and shell D-Bus logic: the shared types, reading the
//! replies, and the calls that are made.
use vstd::prelude::*;

pub mod screencast;
pub mod shell_screenshot;
pub mod types;

verus! {
}
