use rlimgui::cursor::{to_rl_cursor, GuiCursor, HostCursor};
use rlimgui::events::{GuiEvent, GuiMouseButton, HostMouseButton};
use rlimgui::frame::{CursorAction, EngineFrameState, FrameSnapshot};
use rlimgui::lifecycle::{FramePhase, RaylibGui};

fn plain_snapshot() -> FrameSnapshot {
    FrameSnapshot {
        fullscreen: false,
        monitor_width: 1920,
        monitor_height: 1080,
        window_width: 640,
        window_height: 480,
        highdpi: false,
        dpi_scale_x: 1500,
        dpi_scale_y: 1500,
        mouse_x: 100,
        mouse_y: 50,
        mouse_pressed: vec![],
        mouse_released: vec![],
        wheel_x: 0,
        wheel_y: 0,
    }
}

fn plain_engine() -> EngineFrameState {
    EngineFrameState {
        want_set_mouse_pos: false,
        mouse_pos_x: 0,
        mouse_pos_y: 0,
        has_mouse_cursors: true,
        no_mouse_cursor_change: false,
        mouse_draw_cursor: false,
        cursor: Some(GuiCursor::Arrow),
    }
}

#[test]
fn windowed_size_and_unit_scale() {
    let mut gui = RaylibGui::new(true);
    let prep = gui.prepare_frame(&plain_snapshot(), &plain_engine(), 16_000);
    assert_eq!(prep.display_width, 640);
    assert_eq!(prep.display_height, 480);
    assert_eq!(prep.scale_x, 1000);
    assert_eq!(prep.scale_y, 1000);
    assert_eq!(prep.delta_micros, 16_000);
    assert_eq!(gui.phase, FramePhase::InputPrepared);
}

#[test]
fn fullscreen_uses_monitor_resolution() {
    let mut gui = RaylibGui::new(true);
    let mut snap = plain_snapshot();
    snap.fullscreen = true;
    let prep = gui.prepare_frame(&snap, &plain_engine(), 0);
    assert_eq!(prep.display_width, 1920);
    assert_eq!(prep.display_height, 1080);
}

#[test]
fn highdpi_uses_host_scale() {
    let mut gui = RaylibGui::new(true);
    let mut snap = plain_snapshot();
    snap.highdpi = true;
    let prep = gui.prepare_frame(&snap, &plain_engine(), 0);
    assert_eq!(prep.scale_x, 1500);
    assert_eq!(prep.scale_y, 1500);
}

#[test]
fn mouse_position_submitted_when_not_warping() {
    let mut gui = RaylibGui::new(true);
    let prep = gui.prepare_frame(&plain_snapshot(), &plain_engine(), 0);
    assert_eq!(prep.warp_mouse, None);
    assert_eq!(prep.events[0], GuiEvent::MousePos { x: 100, y: 50 });
    // the wheel event is always present, even at zero
    assert_eq!(*prep.events.last().unwrap(), GuiEvent::MouseWheel { x: 0, y: 0 });
}

#[test]
fn requested_mouse_set_warps_instead() {
    let mut gui = RaylibGui::new(true);
    let mut eng = plain_engine();
    eng.want_set_mouse_pos = true;
    eng.mouse_pos_x = 12_500;
    eng.mouse_pos_y = 7_250;
    let prep = gui.prepare_frame(&plain_snapshot(), &eng, 0);
    assert_eq!(prep.warp_mouse, Some((12_500, 7_250)));
    // no position event that frame; the wheel event still appears
    assert_eq!(prep.events.len(), 1);
    assert_eq!(prep.events[0], GuiEvent::MouseWheel { x: 0, y: 0 });
}

#[test]
fn mouse_button_transitions_in_fixed_order() {
    let mut gui = RaylibGui::new(true);
    let mut snap = plain_snapshot();
    snap.mouse_pressed = vec![HostMouseButton::Left, HostMouseButton::Back];
    snap.mouse_released = vec![HostMouseButton::Middle];
    let prep = gui.prepare_frame(&snap, &plain_engine(), 0);
    assert_eq!(
        prep.events,
        vec![
            GuiEvent::MousePos { x: 100, y: 50 },
            GuiEvent::MouseButton { button: GuiMouseButton::Left, down: true },
            GuiEvent::MouseButton { button: GuiMouseButton::Middle, down: false },
            GuiEvent::MouseButton { button: GuiMouseButton::Extra2, down: true },
            GuiEvent::MouseWheel { x: 0, y: 0 },
        ]
    );
}

#[test]
fn wheel_delta_passed_through() {
    let mut gui = RaylibGui::new(true);
    let mut snap = plain_snapshot();
    snap.wheel_x = -250;
    snap.wheel_y = 1_000;
    let prep = gui.prepare_frame(&snap, &plain_engine(), 0);
    assert_eq!(*prep.events.last().unwrap(), GuiEvent::MouseWheel { x: -250, y: 1_000 });
}

#[test]
fn cursor_set_on_first_frame_then_cached() {
    let mut gui = RaylibGui::new(true);
    let prep = gui.prepare_frame(&plain_snapshot(), &plain_engine(), 0);
    assert_eq!(prep.cursor, CursorAction::Show { shape: HostCursor::Arrow });
    // unchanged shape: no host cursor command on the next frame
    let mut gui2 = gui;
    gui2.phase = FramePhase::Idle;
    let prep = gui2.prepare_frame(&plain_snapshot(), &plain_engine(), 0);
    assert_eq!(prep.cursor, CursorAction::Unchanged);
}

#[test]
fn cursor_change_remaps_shape() {
    let mut gui = RaylibGui::new(true);
    let _ = gui.prepare_frame(&plain_snapshot(), &plain_engine(), 0);
    gui.phase = FramePhase::Idle;
    let mut eng = plain_engine();
    eng.cursor = Some(GuiCursor::TextInput);
    let prep = gui.prepare_frame(&plain_snapshot(), &eng, 0);
    assert_eq!(prep.cursor, CursorAction::Show { shape: HostCursor::IBeam });
}

#[test]
fn custom_drawn_cursor_hides_host_cursor() {
    let mut gui = RaylibGui::new(true);
    let mut eng = plain_engine();
    eng.mouse_draw_cursor = true;
    let prep = gui.prepare_frame(&plain_snapshot(), &eng, 0);
    assert_eq!(prep.cursor, CursorAction::Hide);
}

#[test]
fn no_requested_shape_hides_host_cursor() {
    let mut gui = RaylibGui::new(true);
    let _ = gui.prepare_frame(&plain_snapshot(), &plain_engine(), 0);
    gui.phase = FramePhase::Idle;
    // the shape changes from Arrow to "none requested": hide the cursor
    let mut eng = plain_engine();
    eng.cursor = None;
    let prep = gui.prepare_frame(&plain_snapshot(), &eng, 0);
    assert_eq!(prep.cursor, CursorAction::Hide);
}

#[test]
fn disabled_cursor_changes_do_nothing() {
    let mut gui = RaylibGui::new(true);
    let mut eng = plain_engine();
    eng.no_mouse_cursor_change = true;
    let prep = gui.prepare_frame(&plain_snapshot(), &eng, 0);
    assert_eq!(prep.cursor, CursorAction::Unchanged);
}

#[test]
fn cursor_shape_mapping_is_total() {
    assert_eq!(to_rl_cursor(GuiCursor::Arrow), HostCursor::Arrow);
    assert_eq!(to_rl_cursor(GuiCursor::TextInput), HostCursor::IBeam);
    assert_eq!(to_rl_cursor(GuiCursor::ResizeAll), HostCursor::ResizeAll);
    assert_eq!(to_rl_cursor(GuiCursor::ResizeNS), HostCursor::ResizeNS);
    assert_eq!(to_rl_cursor(GuiCursor::ResizeEW), HostCursor::ResizeEW);
    assert_eq!(to_rl_cursor(GuiCursor::ResizeNESW), HostCursor::ResizeNESW);
    assert_eq!(to_rl_cursor(GuiCursor::ResizeNWSE), HostCursor::ResizeNWSE);
    assert_eq!(to_rl_cursor(GuiCursor::Hand), HostCursor::PointingHand);
    assert_eq!(to_rl_cursor(GuiCursor::NotAllowed), HostCursor::NotAllowed);
}
