//! Logic of an interactive "move window" pointer gesture inside a
//! compositor's window-management layer: a button press on a window opens a
//! grab, pointer motion drags the window, and the button release commits an
//! authoritative final position.
//!
//! The crate holds the decision and geometry core of the gesture, verified:
//! the grab snapshot and the per-seat session slot, the per-output render
//! projection, the capture controller's event transitions, and the
//! termination-time commit resolution. The surrounding event loop — seats,
//! outputs, renderers, and the shell bookkeeping they drive — stays outside
//! and exchanges plain values with this core.
//!
//! Fractional logical coordinates are carried in fixed-point subpixel units
//! (256 units per logical pixel), so every computation here is exact integer
//! arithmetic.

pub mod geometry;
pub mod grab;
pub mod laws;
