//! Properties of the gesture stated in their own right, over the same spec
//! functions that the executable contracts use.
//!
//! The remaining guarantees live directly on the functions they concern:
//! the projector's contract says it yields nothing exactly when the
//! translated window geometry misses the output, and the termination
//! contract says the commit and the focus restore are planned only for a
//! live window while the capture release is planned unconditionally.

use vstd::prelude::*;
use crate::geometry::{lemma_round_exact, Pixel, Rect, SubPixel};
use crate::grab::{commit_x, commit_y, MoveGrabState, SeatMoveGrabState};

verus! {

/// A gesture with zero pointer displacement projects the window exactly to
/// its initial location — at every frame and at the final commit, which
/// both read the projected location from the same definition.
pub proof fn lemma_zero_displacement(s: MoveGrabState, cursor: SubPixel)
    requires
        cursor == s.initial_cursor_location,
    ensures
        s.projected_x(cursor) == s.initial_window_location.x,
        s.projected_y(cursor) == s.initial_window_location.y,
{
    lemma_round_exact(s.initial_window_location.x as int);
    lemma_round_exact(s.initial_window_location.y as int);
}

/// Opening a gesture and terminating it with the pointer where it started
/// commits the window back to its pre-gesture position, up to the fixed
/// output-origin and floating-layer-origin offsets applied at every
/// commit.
pub proof fn lemma_noop_round_trip(
    s: MoveGrabState,
    output_geometry: Rect,
    floating_origin: Pixel,
)
    ensures
        commit_x(s, s.initial_cursor_location, output_geometry, floating_origin)
            == s.initial_window_location.x - output_geometry.loc.x + floating_origin.x,
        commit_y(s, s.initial_cursor_location, output_geometry, floating_origin)
            == s.initial_window_location.y - output_geometry.loc.y + floating_origin.y,
{
    lemma_zero_displacement(s, s.initial_cursor_location);
}

/// A seat's slot never holds more than one snapshot, whatever sequence of
/// opens and closes produced its state: two gestures cannot coexist on one
/// seat, opening a second one replaces the first.
pub proof fn lemma_single_active_slot(slot: SeatMoveGrabState)
    ensures
        slot.occupied() <= 1,
{
}

} // verus!
