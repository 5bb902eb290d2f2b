//! Bootstrap shell of a desktop launcher application.
//!
//! The crate models and verifies the startup orchestration of the shell:
//! composing the fixed set of feature extension modules into one startup
//! descriptor, coordinating a single running instance, gating the first
//! paint of the main window, the two-phase global state initialization
//! with its directory grants, and the escalation of fatal run-loop
//! failures into a user-visible diagnostic followed by abnormal exit.

use vstd::prelude::*;

pub mod escalation;
pub mod instance;
pub mod registry;
pub mod state_init;
pub mod window;

verus! {

/// Empty payload of a UI-invokable command that returns no data.
pub struct Void;

} // verus!
