//! The grab snapshot, the per-seat session slot, the render projector, and
//! the capture controller with its termination-time commit resolution.
//!
//! The event loop around this core performs the input forwarding, the
//! rendering, and the shell bookkeeping; every decision about *what* to do
//! is computed here, from plain values, and returned as a directive or a
//! plan for the loop to carry out.

use vstd::prelude::*;
use crate::geometry::{
    boxes_overlap, extent_ok, lemma_round_range, pixel_ok, rect_ok, rects_overlap_exec,
    round_to_px, round_to_px_exec, scale_ok, sub_pixel_ok, to_physical, Extent, Pixel, Rect,
    SubPixel, COORD_LIMIT, PROJ_LIMIT,
};

verus! {

/// Identity of a mapped window: the compositor-side unit representing one
/// or more client surfaces treated as a single draggable entity. The handle
/// the shell holds stays valid for the whole gesture; whether the window is
/// still *alive* (still mapped) is queried fresh at every check and handed
/// in as a plain boolean.
#[derive(Clone, Copy, PartialEq, Eq, Debug)]
pub struct WindowId {
    pub id: u64,
}

/// Immutable record of a drag's starting conditions: written once when the
/// gesture opens, read by the per-frame projector, consumed exactly once at
/// termination.
#[derive(Clone, Copy, PartialEq, Eq, Debug)]
pub struct MoveGrabState {
    pub window: WindowId,
    /// Pointer position when the gesture opened, fractional logical
    /// coordinates in subpixel units.
    pub initial_cursor_location: SubPixel,
    /// Window position when the gesture opened, whole logical pixels.
    pub initial_window_location: Pixel,
}

/// What the projector decides for one output on one frame.
#[derive(Clone, Copy, PartialEq, Eq, Debug)]
pub enum Projection {
    /// The translated window geometry misses this output: produce no render
    /// elements for it. Other outputs are computed independently.
    Hidden,
    /// The window reaches this output: produce its render elements at
    /// `offset` physical pixels, output-local, under `scale` (subpixel
    /// units per pixel).
    Visible { offset: Pixel, scale: i64 },
}

/// Whether the window, moved to its projected location, shares any area
/// with the output.
pub open spec fn visible_on(
    s: MoveGrabState,
    cursor: SubPixel,
    window_geometry: Rect,
    output_geometry: Rect,
) -> bool {
    boxes_overlap(
        window_geometry.loc.x + s.projected_x(cursor),
        window_geometry.loc.y + s.projected_y(cursor),
        window_geometry.size.w as int,
        window_geometry.size.h as int,
        output_geometry.loc.x as int,
        output_geometry.loc.y as int,
        output_geometry.size.w as int,
        output_geometry.size.h as int,
    )
}

/// Output-local physical x offset at which the window is drawn: the
/// projected location, made relative to the output's origin and the
/// window's own geometry origin, scaled to physical pixels.
pub open spec fn render_offset_x(
    s: MoveGrabState,
    cursor: SubPixel,
    window_geometry: Rect,
    output_geometry: Rect,
    scale: int,
) -> int {
    to_physical(
        s.projected_x(cursor) - output_geometry.loc.x - window_geometry.loc.x,
        scale,
    )
}

/// Output-local physical y offset at which the window is drawn.
pub open spec fn render_offset_y(
    s: MoveGrabState,
    cursor: SubPixel,
    window_geometry: Rect,
    output_geometry: Rect,
    scale: int,
) -> int {
    to_physical(
        s.projected_y(cursor) - output_geometry.loc.y - window_geometry.loc.y,
        scale,
    )
}

impl MoveGrabState {
    pub open spec fn wf(self) -> bool {
        sub_pixel_ok(self.initial_cursor_location) && pixel_ok(self.initial_window_location)
    }

    /// x coordinate the window is projected to for a given pointer
    /// position: initial window location plus the pointer's displacement
    /// since the gesture opened, rounded to whole pixels.
    pub open spec fn projected_x(self, cursor: SubPixel) -> int {
        round_to_px(
            self.initial_window_location.x * 256 + (cursor.x - self.initial_cursor_location.x),
        )
    }

    /// y coordinate the window is projected to; see `projected_x`.
    pub open spec fn projected_y(self, cursor: SubPixel) -> int {
        round_to_px(
            self.initial_window_location.y * 256 + (cursor.y - self.initial_cursor_location.y),
        )
    }

    /// Where the dragged window's top-left corner lands for a given pointer
    /// position. Both the per-frame projector and the final commit compute
    /// the location through this one function.
    pub fn projected_location(&self, cursor: SubPixel) -> (r: Pixel)
        requires
            self.wf(),
            sub_pixel_ok(cursor),
        ensures
            r.x as int == self.projected_x(cursor),
            r.y as int == self.projected_y(cursor),
            -PROJ_LIMIT <= r.x as int <= PROJ_LIMIT,
            -PROJ_LIMIT <= r.y as int <= PROJ_LIMIT,
    {
        let vx: i64 = self.initial_window_location.x as i64 * 256
            + (cursor.x - self.initial_cursor_location.x);
        let vy: i64 = self.initial_window_location.y as i64 * 256
            + (cursor.y - self.initial_cursor_location.y);
        proof {
            lemma_round_range(vx as int, 3 * COORD_LIMIT as int);
            lemma_round_range(vy as int, 3 * COORD_LIMIT as int);
        }
        let rx: i64 = round_to_px_exec(vx);
        let ry: i64 = round_to_px_exec(vy);
        Pixel { x: rx as i32, y: ry as i32 }
    }

    /// The per-output, per-frame projection: decide whether the dragged
    /// window is visible on this output and, if so, at which output-local
    /// physical offset its render elements are produced. Reads the snapshot
    /// only; the slot is never touched. Frame-timing notifications are
    /// forwarded by the event loop regardless of this outcome.
    pub fn render(
        &self,
        cursor: SubPixel,
        window_geometry: Rect,
        output_geometry: Rect,
        scale: i64,
    ) -> (r: Projection)
        requires
            self.wf(),
            sub_pixel_ok(cursor),
            rect_ok(window_geometry),
            rect_ok(output_geometry),
            scale_ok(scale as int),
        ensures
            (r is Visible) == visible_on(*self, cursor, window_geometry, output_geometry),
            r matches Projection::Visible { offset, scale: s } ==> {
                &&& offset.x as int == render_offset_x(
                    *self, cursor, window_geometry, output_geometry, scale as int)
                &&& offset.y as int == render_offset_y(
                    *self, cursor, window_geometry, output_geometry, scale as int)
                &&& s == scale
            },
    {
        let location = self.projected_location(cursor);
        let translated = Rect {
            loc: Pixel {
                x: window_geometry.loc.x + location.x,
                y: window_geometry.loc.y + location.y,
            },
            size: window_geometry.size,
        };
        if !rects_overlap_exec(&translated, &output_geometry) {
            return Projection::Hidden;
        }
        let dx: i64 = location.x as i64 - output_geometry.loc.x as i64
            - window_geometry.loc.x as i64;
        let dy: i64 = location.y as i64 - output_geometry.loc.y as i64
            - window_geometry.loc.y as i64;
        proof {
            assert(-85899345920 <= dx * scale <= 85899345920) by (nonlinear_arith)
                requires
                    -20971520 <= dx <= 20971520,
                    1 <= scale <= 4096,
            ;
            assert(-85899345920 <= dy * scale <= 85899345920) by (nonlinear_arith)
                requires
                    -20971520 <= dy <= 20971520,
                    1 <= scale <= 4096,
            ;
            lemma_round_range((dx * scale) as int, 335544320int);
            lemma_round_range((dy * scale) as int, 335544320int);
        }
        let px: i64 = round_to_px_exec(dx * scale);
        let py: i64 = round_to_px_exec(dy * scale);
        Projection::Visible { offset: Pixel { x: px as i32, y: py as i32 }, scale }
    }
}

/// Per-seat session slot: holds zero or one grab snapshot. Occupancy means
/// a capture controller currently owns that seat's pointer. The slot is
/// written at most twice per gesture — once to open, once to take-and-clear
/// at close — and only from the seat's own event loop.
#[derive(Clone, Copy, PartialEq, Eq, Debug)]
pub struct SeatMoveGrabState {
    pub grab: Option<MoveGrabState>,
}

impl SeatMoveGrabState {
    pub open spec fn wf(self) -> bool {
        self.grab matches Some(g) ==> g.wf()
    }

    /// How many snapshots the slot holds; by construction never more than
    /// one.
    pub open spec fn occupied(self) -> nat {
        if self.grab is Some {
            1nat
        } else {
            0nat
        }
    }

    /// A seat starts with no gesture active.
    pub fn new() -> (s: Self)
        ensures
            s.grab is None,
            s.wf(),
    {
        SeatMoveGrabState { grab: None }
    }

    /// Open a gesture: store a fresh snapshot, overwriting any prior
    /// content unconditionally. An earlier gesture's pending commit is
    /// abandoned silently.
    pub fn open(
        &mut self,
        window: WindowId,
        initial_cursor_location: SubPixel,
        initial_window_location: Pixel,
    )
        requires
            sub_pixel_ok(initial_cursor_location),
            pixel_ok(initial_window_location),
        ensures
            final(self).grab == Some(
                (MoveGrabState { window, initial_cursor_location, initial_window_location }),
            ),
            final(self).wf(),
    {
        self.grab = Some(
            MoveGrabState { window, initial_cursor_location, initial_window_location },
        );
    }

    /// Take and clear the current snapshot, or nothing if already empty.
    /// Idempotent: a second close after emptying is a safe no-op.
    pub fn close(&mut self) -> (r: Option<MoveGrabState>)
        ensures
            r == old(self).grab,
            final(self).grab is None,
            old(self).wf() ==> (r matches Some(g) ==> g.wf()),
    {
        let r: Option<MoveGrabState> = self.grab;
        self.grab = None;
        r
    }
}

/// The grab-initiation record the capture was installed with: the focused
/// window at press time, the pressed button, and the press location. The
/// capture installer reads it back to validate grab provenance and
/// replacement; this subsystem returns it unchanged.
#[derive(Clone, Copy, PartialEq, Eq, Debug)]
pub struct GrabStartData {
    pub focus: Option<WindowId>,
    pub button: u32,
    pub location: SubPixel,
}

/// What the event loop must do with one forwarded pointer event.
#[derive(Clone, Copy, PartialEq, Eq, Debug)]
pub struct ForwardDirective {
    /// Forward the event with the pointer-focus target explicitly cleared,
    /// so no client gains exclusive pointer focus while the drag is active;
    /// motion still propagates to passive listeners.
    pub clear_focus: bool,
    /// After forwarding, run the termination procedure with this event's
    /// ordering token and timestamp.
    pub terminate: bool,
}

/// Release of the low-level input capture, with the terminating event's
/// ordering token and timestamp. Every termination performs it exactly
/// once, whatever else was skipped.
#[derive(Clone, Copy, PartialEq, Eq, Debug)]
pub struct ReleaseCapture {
    pub serial: u32,
    pub time: u32,
}

/// Request to restore keyboard focus to the moved window once the drag
/// ends, tagged with the terminating ordering token.
#[derive(Clone, Copy, PartialEq, Eq, Debug)]
pub struct FocusRestore {
    pub window: WindowId,
    pub serial: u32,
}

/// The one authoritative geometry write of a gesture, with the bookkeeping
/// that accompanies it: every constituent surface of `window` is registered
/// with the active workspace and output, the geometry is written, and the
/// window is handed to the floating layout's placement at `placement`.
#[derive(Clone, Copy, PartialEq, Eq, Debug)]
pub struct CommitAction {
    pub window: WindowId,
    /// Final position: the projected location made output-relative, plus
    /// the floating layer's origin.
    pub placement: Pixel,
    /// The authoritative geometry: position `placement`, size unchanged.
    pub geometry: Rect,
}

/// Everything one termination decides. The event loop applies it in order:
/// the commit steps if present, then the capture release, then the focus
/// restore if present.
#[derive(Clone, Copy, PartialEq, Eq, Debug)]
pub struct TerminationPlan {
    pub commit: Option<CommitAction>,
    pub release_capture: ReleaseCapture,
    pub restore_focus: Option<FocusRestore>,
}

/// Final output-relative x position at commit: the projected location,
/// expressed relative to the active output's origin, plus the floating
/// layer's x origin.
pub open spec fn commit_x(
    s: MoveGrabState,
    cursor: SubPixel,
    output_geometry: Rect,
    floating_origin: Pixel,
) -> int {
    s.projected_x(cursor) - output_geometry.loc.x + floating_origin.x
}

/// Final output-relative y position at commit; see `commit_x`.
pub open spec fn commit_y(
    s: MoveGrabState,
    cursor: SubPixel,
    output_geometry: Rect,
    floating_origin: Pixel,
) -> int {
    s.projected_y(cursor) - output_geometry.loc.y + floating_origin.y
}

/// The capture controller of one gesture: receives the seat's pointer
/// events exclusively for the gesture's duration and drives the
/// start/continue/terminate transitions. It lives exactly as long as the
/// capture is installed.
#[derive(Clone, Copy, PartialEq, Eq, Debug)]
pub struct MoveSurfaceGrab {
    pub window: WindowId,
    pub start_data: GrabStartData,
}

impl MoveSurfaceGrab {
    /// Open a gesture on a seat: write the snapshot into the seat's slot —
    /// replacing any prior one — and return the controller that will
    /// receive the captured pointer events.
    pub fn new(
        start_data: GrabStartData,
        window: WindowId,
        slot: &mut SeatMoveGrabState,
        initial_cursor_location: SubPixel,
        initial_window_location: Pixel,
    ) -> (g: MoveSurfaceGrab)
        requires
            sub_pixel_ok(initial_cursor_location),
            pixel_ok(initial_window_location),
        ensures
            final(slot).grab == Some(
                (MoveGrabState { window, initial_cursor_location, initial_window_location }),
            ),
            final(slot).wf(),
            g.window == window,
            g.start_data == start_data,
    {
        slot.open(window, initial_cursor_location, initial_window_location);
        MoveSurfaceGrab { window, start_data }
    }

    /// Pointer motion: always forwarded with the focus target cleared; the
    /// gesture terminates right away when the dragged window is no longer
    /// alive.
    pub fn motion(&self, window_alive: bool) -> (d: ForwardDirective)
        ensures
            d.clear_focus,
            d.terminate == !window_alive,
    {
        ForwardDirective { clear_focus: true, terminate: !window_alive }
    }

    /// Relative motion: forwarded with the focus target cleared; never
    /// terminates the gesture by itself.
    pub fn relative_motion(&self) -> (d: ForwardDirective)
        ensures
            d.clear_focus,
            !d.terminate,
    {
        ForwardDirective { clear_focus: true, terminate: false }
    }

    /// Button: forwarded unchanged first — the forward updates the
    /// pressed-button set — then the gesture terminates when no button
    /// remains pressed.
    pub fn button(&self, any_button_still_pressed: bool) -> (d: ForwardDirective)
        ensures
            !d.clear_focus,
            d.terminate == !any_button_still_pressed,
    {
        ForwardDirective { clear_focus: false, terminate: !any_button_still_pressed }
    }

    /// Axis (scroll): forwarded unchanged; never affects the gesture
    /// lifecycle.
    pub fn axis(&self) -> (d: ForwardDirective)
        ensures
            !d.clear_focus,
            !d.terminate,
    {
        ForwardDirective { clear_focus: false, terminate: false }
    }

    /// The original grab-initiation record, unchanged.
    pub fn start_data(&self) -> (r: &GrabStartData)
        ensures
            *r == self.start_data,
    {
        &self.start_data
    }

    /// The termination procedure. Takes and clears the seat's slot; when a
    /// snapshot was present and the window is alive, resolves the final
    /// output-relative position and plans the one authoritative geometry
    /// write with the window's size unchanged. The capture release is
    /// always planned; the focus restore exactly when the controller's
    /// window is alive at release time. Idempotent: once the slot is empty,
    /// a repeated termination plans no commit.
    ///
    /// `window_alive` is the liveness of the snapshot's window at the
    /// commit check; `window_alive_at_release` is the liveness of the
    /// controller's window at the focus-restore check just after the
    /// release.
    pub fn ungrab(
        &self,
        slot: &mut SeatMoveGrabState,
        cursor: SubPixel,
        output_geometry: Rect,
        floating_origin: Pixel,
        window_size: Extent,
        window_alive: bool,
        window_alive_at_release: bool,
        serial: u32,
        time: u32,
    ) -> (plan: TerminationPlan)
        requires
            old(slot).wf(),
            sub_pixel_ok(cursor),
            rect_ok(output_geometry),
            pixel_ok(floating_origin),
            extent_ok(window_size),
        ensures
            final(slot).grab is None,
            plan.release_capture == (ReleaseCapture { serial, time }),
            (plan.restore_focus is Some) == window_alive_at_release,
            window_alive_at_release ==> plan.restore_focus == Some(
                (FocusRestore { window: self.window, serial }),
            ),
            (plan.commit is Some) == (old(slot).grab is Some && window_alive),
            old(slot).grab is Some && window_alive
                ==> plan.commit is Some
                && plan.commit->0.window == old(slot).grab->0.window
                && plan.commit->0.placement.x as int
                    == commit_x(old(slot).grab->0, cursor, output_geometry, floating_origin)
                && plan.commit->0.placement.y as int
                    == commit_y(old(slot).grab->0, cursor, output_geometry, floating_origin)
                && plan.commit->0.geometry.loc == plan.commit->0.placement
                && plan.commit->0.geometry.size == window_size,
    {
        let taken: Option<MoveGrabState> = slot.close();
        let commit: Option<CommitAction> = match taken {
            Some(snap) => {
                if window_alive {
                    let location = snap.projected_location(cursor);
                    let placement = Pixel {
                        x: location.x - output_geometry.loc.x + floating_origin.x,
                        y: location.y - output_geometry.loc.y + floating_origin.y,
                    };
                    Some(
                        CommitAction {
                            window: snap.window,
                            placement,
                            geometry: Rect { loc: placement, size: window_size },
                        },
                    )
                } else {
                    None
                }
            },
            None => None,
        };
        let restore_focus: Option<FocusRestore> = if window_alive_at_release {
            Some(FocusRestore { window: self.window, serial })
        } else {
            None
        };
        TerminationPlan {
            commit,
            release_capture: ReleaseCapture { serial, time },
            restore_focus,
        }
    }
}

} // verus!
