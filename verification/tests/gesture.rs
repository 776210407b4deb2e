use move_grab::geometry::{Extent, Pixel, Rect, SubPixel};
use move_grab::grab::{
    GrabStartData, MoveGrabState, MoveSurfaceGrab, Projection, SeatMoveGrabState, WindowId,
};

fn sub(px: i64) -> i64 {
    px * 256
}

fn snapshot() -> MoveGrabState {
    MoveGrabState {
        window: WindowId { id: 7 },
        initial_cursor_location: SubPixel { x: sub(150), y: sub(150) },
        initial_window_location: Pixel { x: 100, y: 100 },
    }
}

fn window_geometry() -> Rect {
    Rect { loc: Pixel { x: 0, y: 0 }, size: Extent { w: 200, h: 150 } }
}

fn first_output() -> Rect {
    Rect { loc: Pixel { x: 0, y: 0 }, size: Extent { w: 800, h: 600 } }
}

fn second_output() -> Rect {
    Rect { loc: Pixel { x: 800, y: 0 }, size: Extent { w: 1120, h: 1080 } }
}

#[test]
fn zero_displacement_projects_to_initial_location() {
    let s = snapshot();
    let loc = s.projected_location(s.initial_cursor_location);
    assert_eq!(loc, Pixel { x: 100, y: 100 });
}

#[test]
fn projection_follows_rounded_pointer_delta() {
    let s = snapshot();
    // A displacement of (20.5, -20.5) pixels lands on (120.5, 79.5), which
    // rounds half away from zero to (121, 80).
    let cursor = SubPixel { x: sub(170) + 128, y: sub(130) - 128 };
    let loc = s.projected_location(cursor);
    assert_eq!(loc, Pixel { x: 121, y: 80 });
}

#[test]
fn drag_renders_at_output_local_offset() {
    let s = snapshot();
    let cursor = SubPixel { x: sub(170), y: sub(180) };
    let r = s.render(cursor, window_geometry(), first_output(), 256);
    assert_eq!(
        r,
        Projection::Visible { offset: Pixel { x: 120, y: 130 }, scale: 256 }
    );
}

#[test]
fn render_scales_offset_to_physical_pixels() {
    let s = snapshot();
    let cursor = SubPixel { x: sub(170), y: sub(180) };
    // Scale 1.5: the logical offset (120, 130) lands at (180, 195).
    let r = s.render(cursor, window_geometry(), first_output(), 384);
    assert_eq!(
        r,
        Projection::Visible { offset: Pixel { x: 180, y: 195 }, scale: 384 }
    );
}

#[test]
fn render_subtracts_output_and_window_origins() {
    let s = snapshot();
    let cursor = SubPixel { x: sub(170), y: sub(180) };
    let win = Rect { loc: Pixel { x: 5, y: 10 }, size: Extent { w: 200, h: 150 } };
    let out = Rect { loc: Pixel { x: 50, y: 20 }, size: Extent { w: 800, h: 600 } };
    let r = s.render(cursor, win, out, 256);
    assert_eq!(
        r,
        Projection::Visible { offset: Pixel { x: 65, y: 100 }, scale: 256 }
    );
}

#[test]
fn offscreen_window_renders_nothing() {
    let s = snapshot();
    let cursor = SubPixel { x: sub(170), y: sub(180) };
    let far_output = Rect { loc: Pixel { x: 4000, y: 4000 }, size: Extent { w: 800, h: 600 } };
    assert_eq!(s.render(cursor, window_geometry(), far_output, 256), Projection::Hidden);
}

#[test]
fn second_output_stays_empty_while_first_renders() {
    let s = snapshot();
    let trajectory = [
        SubPixel { x: sub(150), y: sub(150) },
        SubPixel { x: sub(160), y: sub(165) },
        SubPixel { x: sub(170), y: sub(180) },
    ];
    for cursor in trajectory {
        assert_eq!(s.render(cursor, window_geometry(), second_output(), 256), Projection::Hidden);
        assert!(matches!(
            s.render(cursor, window_geometry(), first_output(), 256),
            Projection::Visible { .. }
        ));
    }
}

#[test]
fn drag_and_release_commits_final_geometry() {
    let mut slot = SeatMoveGrabState::new();
    let start = GrabStartData {
        focus: Some(WindowId { id: 7 }),
        button: 0x110,
        location: SubPixel { x: sub(150), y: sub(150) },
    };
    let g = MoveSurfaceGrab::new(
        start,
        WindowId { id: 7 },
        &mut slot,
        SubPixel { x: sub(150), y: sub(150) },
        Pixel { x: 100, y: 100 },
    );
    let plan = g.ungrab(
        &mut slot,
        SubPixel { x: sub(170), y: sub(180) },
        first_output(),
        Pixel { x: 0, y: 0 },
        Extent { w: 200, h: 150 },
        true,
        true,
        42,
        1000,
    );
    let commit = plan.commit.expect("a live window must get its geometry committed");
    assert_eq!(commit.window, WindowId { id: 7 });
    assert_eq!(commit.placement, Pixel { x: 120, y: 130 });
    assert_eq!(
        commit.geometry,
        Rect { loc: Pixel { x: 120, y: 130 }, size: Extent { w: 200, h: 150 } }
    );
    assert_eq!(plan.release_capture.serial, 42);
    assert_eq!(plan.release_capture.time, 1000);
    assert_eq!(plan.restore_focus.map(|f| (f.window, f.serial)), Some((WindowId { id: 7 }, 42)));
    assert!(slot.grab.is_none());
}

#[test]
fn commit_is_output_relative_and_offset_by_floating_origin() {
    let mut slot = SeatMoveGrabState::new();
    let g = MoveSurfaceGrab::new(
        GrabStartData { focus: None, button: 0x110, location: SubPixel { x: sub(150), y: sub(150) } },
        WindowId { id: 7 },
        &mut slot,
        SubPixel { x: sub(150), y: sub(150) },
        Pixel { x: 100, y: 100 },
    );
    let out = Rect { loc: Pixel { x: 30, y: 40 }, size: Extent { w: 800, h: 600 } };
    let plan = g.ungrab(
        &mut slot,
        SubPixel { x: sub(170), y: sub(180) },
        out,
        Pixel { x: 3, y: 4 },
        Extent { w: 200, h: 150 },
        true,
        true,
        1,
        1,
    );
    // Projected (120, 130), made output-relative, plus the floating origin.
    assert_eq!(plan.commit.unwrap().placement, Pixel { x: 93, y: 94 });
}

#[test]
fn no_op_gesture_commits_initial_position() {
    let mut slot = SeatMoveGrabState::new();
    let cursor0 = SubPixel { x: sub(150), y: sub(150) };
    let g = MoveSurfaceGrab::new(
        GrabStartData { focus: None, button: 0x110, location: cursor0 },
        WindowId { id: 7 },
        &mut slot,
        cursor0,
        Pixel { x: 100, y: 100 },
    );
    let plan = g.ungrab(
        &mut slot,
        cursor0,
        first_output(),
        Pixel { x: 0, y: 0 },
        Extent { w: 200, h: 150 },
        true,
        true,
        5,
        5,
    );
    assert_eq!(plan.commit.unwrap().placement, Pixel { x: 100, y: 100 });
}

#[test]
fn dead_window_skips_commit_and_focus_but_releases() {
    let mut slot = SeatMoveGrabState::new();
    let g = MoveSurfaceGrab::new(
        GrabStartData { focus: None, button: 0x110, location: SubPixel { x: sub(150), y: sub(150) } },
        WindowId { id: 7 },
        &mut slot,
        SubPixel { x: sub(150), y: sub(150) },
        Pixel { x: 100, y: 100 },
    );
    let plan = g.ungrab(
        &mut slot,
        SubPixel { x: sub(170), y: sub(180) },
        first_output(),
        Pixel { x: 0, y: 0 },
        Extent { w: 200, h: 150 },
        false,
        false,
        9,
        77,
    );
    assert!(plan.commit.is_none());
    assert!(plan.restore_focus.is_none());
    assert_eq!(plan.release_capture.serial, 9);
    assert_eq!(plan.release_capture.time, 77);
    assert!(slot.grab.is_none());
}

#[test]
fn duplicate_termination_plans_no_second_commit() {
    let mut slot = SeatMoveGrabState::new();
    let g = MoveSurfaceGrab::new(
        GrabStartData { focus: None, button: 0x110, location: SubPixel { x: sub(150), y: sub(150) } },
        WindowId { id: 7 },
        &mut slot,
        SubPixel { x: sub(150), y: sub(150) },
        Pixel { x: 100, y: 100 },
    );
    let cursor = SubPixel { x: sub(170), y: sub(180) };
    let first = g.ungrab(
        &mut slot, cursor, first_output(), Pixel { x: 0, y: 0 },
        Extent { w: 200, h: 150 }, true, true, 10, 10,
    );
    assert!(first.commit.is_some());
    let second = g.ungrab(
        &mut slot, cursor, first_output(), Pixel { x: 0, y: 0 },
        Extent { w: 200, h: 150 }, true, true, 11, 11,
    );
    assert!(second.commit.is_none());
    assert_eq!(second.release_capture.serial, 11);
    assert!(second.restore_focus.is_some());
}

#[test]
fn opening_second_gesture_replaces_snapshot() {
    let mut slot = SeatMoveGrabState::new();
    slot.open(
        WindowId { id: 1 },
        SubPixel { x: sub(10), y: sub(10) },
        Pixel { x: 0, y: 0 },
    );
    slot.open(
        WindowId { id: 2 },
        SubPixel { x: sub(20), y: sub(20) },
        Pixel { x: 5, y: 5 },
    );
    let held = slot.grab.expect("the slot must hold the later snapshot");
    assert_eq!(held.window, WindowId { id: 2 });
    assert_eq!(held.initial_window_location, Pixel { x: 5, y: 5 });
    assert_eq!(slot.close().map(|s| s.window), Some(WindowId { id: 2 }));
    assert!(slot.close().is_none());
}

#[test]
fn motion_terminates_only_for_dead_window() {
    let g = MoveSurfaceGrab {
        window: WindowId { id: 7 },
        start_data: GrabStartData { focus: None, button: 0x110, location: SubPixel { x: 0, y: 0 } },
    };
    let live = g.motion(true);
    assert!(live.clear_focus);
    assert!(!live.terminate);
    let dead = g.motion(false);
    assert!(dead.clear_focus);
    assert!(dead.terminate);
}

#[test]
fn button_release_terminates_when_none_pressed() {
    let g = MoveSurfaceGrab {
        window: WindowId { id: 7 },
        start_data: GrabStartData { focus: None, button: 0x110, location: SubPixel { x: 0, y: 0 } },
    };
    let still_held = g.button(true);
    assert!(!still_held.clear_focus);
    assert!(!still_held.terminate);
    let all_up = g.button(false);
    assert!(all_up.terminate);
}

#[test]
fn relative_motion_and_axis_never_terminate() {
    let g = MoveSurfaceGrab {
        window: WindowId { id: 7 },
        start_data: GrabStartData { focus: None, button: 0x110, location: SubPixel { x: 0, y: 0 } },
    };
    let rel = g.relative_motion();
    assert!(rel.clear_focus);
    assert!(!rel.terminate);
    let axis = g.axis();
    assert!(!axis.clear_focus);
    assert!(!axis.terminate);
}

#[test]
fn start_data_is_returned_unchanged() {
    let start = GrabStartData {
        focus: Some(WindowId { id: 3 }),
        button: 0x111,
        location: SubPixel { x: sub(12), y: sub(34) },
    };
    let g = MoveSurfaceGrab { window: WindowId { id: 7 }, start_data: start };
    assert_eq!(*g.start_data(), start);
}
