//! Building blocks for interactive widgets in a spatial user interface:
//! per-tick input arbitration, the decisions of grabbable objects, and small
//! state machines.

pub mod grabbable;
pub mod input_action;
pub mod state_machine;

pub use grabbable::{GrabPlan, GrabPolicy, Magnet, PointerMode, PoseRule};

use vstd::prelude::*;

verus! {

/// A widget that is driven by the events of its input handler.
pub trait UIElement {
    /// Handles the events that arrived; returns true if any were handled
    /// (e.g. when input has been updated).
    fn handle_events(&mut self) -> bool;
}

} // verus!
