//! A draggable, screen-clamped UI panel modeled as a small verified state
//! machine: a panel accumulates pointer drag deltas onto an unclamped logical
//! position, a per-frame sync step clamps that position against the current
//! viewport and publishes it to the layout, and a memoryless mapper turns the
//! title bar's pointer-interaction signal into its background color.

pub mod color;
pub mod panel;
