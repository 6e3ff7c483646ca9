//! Pointer events and the engines' replies: whether an event was consumed,
//! and which mouse cursor the host should show.

use vstd::prelude::*;

verus! {

/// A pointer event of the primary button, as the host hands it to an engine.
/// `Moved` carries no position of its own: the engines read the cursor
/// argument that accompanies every event.
#[derive(Debug, Clone, Copy, PartialEq, Eq, Structural)]
pub enum PointerEvent {
    LeftPressed,
    LeftReleased,
    Moved,
    Other,
}

/// Whether an engine consumed an event.
#[derive(Debug, Clone, Copy, PartialEq, Eq, Structural)]
pub enum Status {
    Captured,
    Ignored,
}

/// The mouse cursor an engine asks the host to display.
#[derive(Debug, Clone, Copy, PartialEq, Eq, Structural)]
pub enum Interaction {
    Idle,
    Crosshair,
    Resizing,
    Grab,
    Grabbing,
}

} // verus!
