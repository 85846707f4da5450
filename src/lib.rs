//! Supervision of a backend worker process: its launch plan, the
//! classification of its output lines, and the splash-to-main window
//! hand-over that those lines drive.
use vstd::prelude::*;

pub mod controller;
pub mod launch;
pub mod laws;
pub mod status;

verus! {

} // verus!
