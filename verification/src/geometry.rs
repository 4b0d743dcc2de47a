//! Basic geometry: split orientations with their size floors, integer pointer
//! coordinates, and the pointer events the resize machinery reacts to.

use vstd::prelude::*;

verus! {

/// Largest pane extent the resize arithmetic accepts; keeps the sum of two
/// adjacent extents inside `i32`.
pub const MAX_EXTENT: i32 = 0x3FFF_FFFF;

/// The primary pointer button (BTN_LEFT); the only button that arms a resize.
pub const BTN_LEFT: u32 = 0x110;

/// Axis a group splits along. A `Horizontal` group stacks its children top to
/// bottom (resized by vertical pointer motion); a `Vertical` group places them
/// side by side (resized by horizontal pointer motion).
#[derive(Debug, Clone, Copy, PartialEq, Eq, Structural)]
pub enum Orientation {
    Horizontal,
    Vertical,
}

/// Smallest extent a single pane may be resized to.
pub open spec fn pane_min_spec(o: Orientation) -> int {
    match o {
        Orientation::Vertical => 360,
        Orientation::Horizontal => 240,
    }
}

/// Combined floor for a pair of adjacent panes: at or below it, resizing the
/// boundary between them is vetoed entirely.
pub open spec fn combined_min_spec(o: Orientation) -> int {
    match o {
        Orientation::Vertical => 720,
        Orientation::Horizontal => 480,
    }
}

pub fn pane_min(o: Orientation) -> (r: i32)
    ensures
        r == pane_min_spec(o),
{
    match o {
        Orientation::Vertical => 360,
        Orientation::Horizontal => 240,
    }
}

pub fn combined_min(o: Orientation) -> (r: i32)
    ensures
        r == combined_min_spec(o),
{
    match o {
        Orientation::Vertical => 720,
        Orientation::Horizontal => 480,
    }
}

/// A pointer position in whole logical pixels.
#[derive(Debug, Clone, Copy, PartialEq, Eq, Structural)]
pub struct Point {
    pub x: i32,
    pub y: i32,
}

/// State of a button within a button event.
#[derive(Debug, Clone, Copy, PartialEq, Eq, Structural)]
pub enum ButtonState {
    Pressed,
    Released,
}

/// An absolute pointer-motion event.
#[derive(Debug, Clone, Copy, PartialEq, Eq, Structural)]
pub struct MotionEvent {
    pub location: Point,
    pub serial: u32,
    pub time: u32,
}

/// A pointer-button event.
#[derive(Debug, Clone, Copy, PartialEq, Eq, Structural)]
pub struct ButtonEvent {
    pub button: u32,
    pub state: ButtonState,
    pub serial: u32,
    pub time: u32,
}

/// A relative pointer-motion event. Relative deltas never drive a resize —
/// only absolute locations do, to stay consistent with the grab's
/// last-location bookkeeping — so the machinery forwards these unread.
#[derive(Debug, Clone, Copy, PartialEq, Eq, Structural)]
pub struct RelativeMotionEvent {
    pub delta: Point,
    pub time: u32,
}

/// A scroll/axis event; carries nothing the resize machinery reads.
#[derive(Debug, Clone, Copy, PartialEq, Eq, Structural)]
pub struct AxisFrame {
    pub time: u32,
}

/// Cursor images the resize handle switches between.
#[derive(Debug, Clone, Copy, PartialEq, Eq, Structural)]
pub enum CursorShape {
    Default,
    RowResize,
    ColResize,
}

/// The per-seat cursor-shape side channel.
#[derive(Debug, Clone, Copy, PartialEq, Eq, Structural)]
pub struct CursorState {
    pub shape: CursorShape,
}

} // verus!
