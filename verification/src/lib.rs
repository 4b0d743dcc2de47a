//! Interactive-resize subsystem of a tiling layout: the redistribution rule
//! for the extents of two adjacent panes in a split group, the pointer-grab
//! state machine that drives it from pointer motion, and the queue of
//! synchronization tokens that gates presentation of the resized surfaces.

pub mod geometry;
pub mod layer;
pub mod output;
pub mod redistribute;
pub mod resize;
pub mod seat;
pub mod session;
pub mod tree;
