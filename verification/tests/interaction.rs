use overlay_studio::geom::{Dims, IRect, Pt, Zoom};
use overlay_studio::interact::{CursorHint, InteractionState, Mode};

fn pt(x: i64, y: i64) -> Pt {
    Pt { x, y }
}

fn dims(w: i64, h: i64) -> Dims {
    Dims { w, h }
}

const VP: Dims = Dims { w: 1280, h: 720 };

#[test]
fn initial_state() {
    let ui = InteractionState::new();
    assert_eq!(ui.box_pos, pt(100, 100));
    assert_eq!(ui.box_size, dims(160, 120));
    assert_eq!(ui.mode, Mode::Idle);
    assert!(!ui.crop_armed);
    assert!(ui.crop_bounds.is_none());
}

#[test]
fn down_inside_box_starts_drag() {
    let mut ui = InteractionState::new();
    ui.pointer_down(pt(150, 150), true);
    assert_eq!(ui.mode, Mode::Dragging { grab: pt(50, 50) });
}

#[test]
fn down_without_camera_does_nothing() {
    let mut ui = InteractionState::new();
    ui.pointer_down(pt(150, 150), false);
    assert_eq!(ui.mode, Mode::Idle);
}

#[test]
fn down_in_corner_starts_resize() {
    let mut ui = InteractionState::new();
    // Bottom-right 20 px corner zone of the box at (100,100) sized 160x120.
    ui.pointer_down(pt(250, 210), true);
    assert_eq!(ui.mode, Mode::Resizing);
}

#[test]
fn drag_clamps_to_viewport() {
    let mut ui = InteractionState::new();
    ui.pointer_down(pt(150, 150), true);
    ui.pointer_move(pt(5000, 5000), VP);
    assert_eq!(ui.box_pos, pt(1120, 600));
    ui.pointer_move(pt(-500, -500), VP);
    assert_eq!(ui.box_pos, pt(0, 0));
    ui.pointer_up(VP, None);
    assert_eq!(ui.mode, Mode::Idle);
}

#[test]
fn resize_clamps_size_bounds() {
    let mut ui = InteractionState::new();
    ui.pointer_down(pt(250, 210), true);
    ui.pointer_move(pt(5000, 5000), VP);
    assert_eq!(ui.box_size, dims(600, 400));
    ui.pointer_move(pt(100, 100), VP);
    assert_eq!(ui.box_size, dims(100, 100));
    ui.pointer_up(VP, None);
    assert_eq!(ui.mode, Mode::Idle);
}

#[test]
fn pointer_leave_abandons_drag() {
    let mut ui = InteractionState::new();
    ui.pointer_down(pt(150, 150), true);
    ui.pointer_leave();
    assert_eq!(ui.mode, Mode::Idle);
    assert_eq!(ui.box_pos, pt(100, 100));
}

#[test]
fn crop_arm_while_dragging_clears_drag() {
    // Mode exclusivity: arming the crop tool cancels the drag in progress,
    // and the pointer events that follow touch only the crop selection.
    let mut ui = InteractionState::new();
    ui.pointer_down(pt(150, 150), true);
    assert!(matches!(ui.mode, Mode::Dragging { .. }));
    ui.toggle_crop_tool();
    assert_eq!(ui.mode, Mode::Idle);
    assert!(ui.crop_armed);
    assert_eq!(ui.box_pos, pt(100, 100));
    ui.pointer_down(pt(300, 200), true);
    assert_eq!(ui.mode, Mode::CropSelecting { start: pt(300, 200), current: pt(300, 200) });
    ui.pointer_move(pt(500, 400), VP);
    assert_eq!(ui.mode, Mode::CropSelecting { start: pt(300, 200), current: pt(500, 400) });
    assert_eq!(ui.box_pos, pt(100, 100));
    assert_eq!(ui.box_size, dims(160, 120));
    assert!(ui.crop_bounds.is_none());
}

#[test]
fn small_selection_keeps_tool_armed() {
    let mut ui = InteractionState::new();
    ui.toggle_crop_tool();
    ui.pointer_down(pt(100, 100), false);
    ui.pointer_move(pt(106, 106), VP);
    ui.pointer_up(VP, Some(dims(1920, 1080)));
    assert_eq!(ui.mode, Mode::Idle);
    assert!(ui.crop_bounds.is_none());
    assert!(ui.crop_armed);
}

#[test]
fn committed_selection_disarms_tool() {
    let mut ui = InteractionState::new();
    ui.toggle_crop_tool();
    ui.pointer_down(pt(100, 100), false);
    ui.pointer_move(pt(200, 200), VP);
    ui.pointer_up(VP, Some(dims(1920, 1080)));
    assert_eq!(ui.crop_bounds, Some(IRect { x: 150, y: 150, w: 150, h: 150 }));
    assert!(!ui.crop_armed);
    assert_eq!(ui.mode, Mode::Idle);
}

#[test]
fn selection_without_screen_source_is_dropped() {
    let mut ui = InteractionState::new();
    ui.toggle_crop_tool();
    ui.pointer_down(pt(100, 100), false);
    ui.pointer_move(pt(600, 600), VP);
    ui.pointer_up(VP, None);
    assert!(ui.crop_bounds.is_none());
    assert!(ui.crop_armed);
}

#[test]
fn toggle_off_abandons_live_selection() {
    let mut ui = InteractionState::new();
    ui.toggle_crop_tool();
    ui.pointer_down(pt(100, 100), false);
    ui.toggle_crop_tool();
    assert_eq!(ui.mode, Mode::Idle);
    assert!(!ui.crop_armed);
    assert!(ui.crop_bounds.is_none());
}

#[test]
fn reset_crop_clears_bounds() {
    let mut ui = InteractionState::new();
    ui.toggle_crop_tool();
    ui.pointer_down(pt(100, 100), false);
    ui.pointer_move(pt(200, 200), VP);
    ui.pointer_up(VP, Some(dims(1920, 1080)));
    assert!(ui.crop_bounds.is_some());
    ui.reset_crop();
    assert!(ui.crop_bounds.is_none());
    assert!(!ui.crop_armed);
}

#[test]
fn annotation_is_single_shot() {
    let mut ui = InteractionState::new();
    ui.arm_pointer_tool(pt(44, 300));
    assert_eq!(ui.mode, Mode::PointerAnnotating { pos: pt(44, 300) });
    ui.pointer_move(pt(640, 360), VP);
    assert_eq!(ui.mode, Mode::PointerAnnotating { pos: pt(640, 360) });
    // The marker tracks the raw pointer, even outside the viewport.
    ui.pointer_move(pt(-30, 9000), VP);
    assert_eq!(ui.mode, Mode::PointerAnnotating { pos: pt(-30, 9000) });
    ui.pointer_up(VP, None);
    assert_eq!(ui.mode, Mode::Idle);
}

#[test]
fn arming_annotation_disarms_crop() {
    let mut ui = InteractionState::new();
    ui.toggle_crop_tool();
    ui.arm_pointer_tool(pt(44, 300));
    assert!(!ui.crop_armed);
    assert!(matches!(ui.mode, Mode::PointerAnnotating { .. }));
}

#[test]
fn set_zoom_changes_only_zoom() {
    let mut ui = InteractionState::new();
    ui.set_zoom(Zoom { num: 2, den: 1 });
    assert_eq!(ui.zoom, Zoom { num: 2, den: 1 });
    assert_eq!(ui.box_pos, pt(100, 100));
    assert_eq!(ui.mode, Mode::Idle);
}

#[test]
fn cursor_hints_follow_hover_position() {
    let ui = InteractionState::new();
    assert_eq!(ui.cursor_hint(pt(150, 150), true), CursorHint::Grab);
    assert_eq!(ui.cursor_hint(pt(250, 210), true), CursorHint::Resize);
    assert_eq!(ui.cursor_hint(pt(10, 10), true), CursorHint::Default);
    // Without a camera, the box is not hoverable at all.
    assert_eq!(ui.cursor_hint(pt(150, 150), false), CursorHint::Default);
}

#[test]
fn cursor_hints_follow_modes() {
    let mut ui = InteractionState::new();
    ui.toggle_crop_tool();
    assert_eq!(ui.cursor_hint(pt(150, 150), true), CursorHint::Crosshair);
    ui.pointer_down(pt(100, 100), true);
    assert_eq!(ui.cursor_hint(pt(150, 150), true), CursorHint::Crosshair);
    let mut drag = InteractionState::new();
    drag.pointer_down(pt(150, 150), true);
    assert_eq!(drag.cursor_hint(pt(150, 150), true), CursorHint::Grabbing);
    let mut resize = InteractionState::new();
    resize.pointer_down(pt(250, 210), true);
    assert_eq!(resize.cursor_hint(pt(250, 210), true), CursorHint::Resize);
    let mut marker = InteractionState::new();
    marker.arm_pointer_tool(pt(44, 300));
    assert_eq!(marker.cursor_hint(pt(150, 150), true), CursorHint::Hidden);
}
