use rlimgui::atlas::{plan_font_upload, AtlasUpload, TEXTURE_UNSET};
use rlimgui::clipboard::clipboard_set_plan;
use rlimgui::frame::{EngineFrameState, FrameSnapshot};
use rlimgui::input::{InputFlags, InputSnapshot};
use rlimgui::lifecycle::{FramePhase, RaylibGui};
use rlimgui::render::{DisplayMetrics, DrawCommand, DrawData, DrawList, RenderError};
use rlimgui::settings::{load_ini_settings, save_ini_settings};

fn empty_input() -> InputSnapshot {
    InputSnapshot {
        keys_pressed: vec![],
        keys_released: vec![],
        keys_down: vec![],
        chars_pressed: vec![],
        gamepad_available: false,
        buttons_pressed: vec![],
        buttons_released: vec![],
        axis_values: vec![],
    }
}

fn plain_frame() -> FrameSnapshot {
    FrameSnapshot {
        fullscreen: false,
        monitor_width: 1920,
        monitor_height: 1080,
        window_width: 640,
        window_height: 480,
        highdpi: false,
        dpi_scale_x: 1000,
        dpi_scale_y: 1000,
        mouse_x: 0,
        mouse_y: 0,
        mouse_pressed: vec![],
        mouse_released: vec![],
        wheel_x: 0,
        wheel_y: 0,
    }
}

fn plain_engine() -> EngineFrameState {
    EngineFrameState {
        want_set_mouse_pos: false,
        mouse_pos_x: 0,
        mouse_pos_y: 0,
        has_mouse_cursors: false,
        no_mouse_cursor_change: false,
        mouse_draw_cursor: false,
        cursor: None,
    }
}

fn no_flags() -> InputFlags {
    InputFlags { want_capture_keyboard: false, gamepad_nav: false }
}

#[test]
fn one_frame_walks_the_phases() {
    let mut gui = RaylibGui::new(true);
    assert_eq!(gui.phase, FramePhase::Idle);
    let _ = gui.update_delta(&empty_input(), no_flags(), &plain_frame(), &plain_engine(), 16_000);
    assert_eq!(gui.phase, FramePhase::InputPrepared);
    gui.new_frame();
    assert_eq!(gui.phase, FramePhase::FrameBuilding);
    let dd = DrawData { lists: vec![] };
    let m = DisplayMetrics { width: 640, height: 480, scale_x: 1000, scale_y: 1000 };
    let r = gui.end(&dd, m);
    assert!(r.is_ok());
    assert_eq!(gui.phase, FramePhase::Idle);
}

#[test]
fn begin_delta_reaches_frame_building() {
    let mut gui = RaylibGui::new(true);
    let _ = gui.begin_delta(&empty_input(), no_flags(), &plain_frame(), &plain_engine(), 16_000);
    assert_eq!(gui.phase, FramePhase::FrameBuilding);
}

#[test]
fn failed_render_keeps_frame_building() {
    let mut gui = RaylibGui::new(true);
    let _ = gui.begin_delta(&empty_input(), no_flags(), &plain_frame(), &plain_engine(), 0);
    let dd = DrawData {
        lists: vec![DrawList { vtx: vec![], idx: vec![], cmds: vec![DrawCommand::ResetRenderState] }],
    };
    let m = DisplayMetrics { width: 640, height: 480, scale_x: 1000, scale_y: 1000 };
    let r = gui.render(&dd, m);
    assert_eq!(r, Err(RenderError::ResetRenderStateUnsupported));
    assert_eq!(gui.phase, FramePhase::FrameBuilding);
}

#[test]
fn first_font_upload_creates_then_updates_in_place() {
    let mut gui = RaylibGui::new(false);
    assert_eq!(gui.reload_fonts(512, 128), AtlasUpload::Create { width: 512, height: 128 });
    gui.store_font_texture(42);
    // the same glyph content again: same texture id, no second creation
    assert_eq!(gui.reload_fonts(512, 128), AtlasUpload::Update { id: 42, width: 512, height: 128 });
    assert_eq!(gui.reload_fonts(512, 128), AtlasUpload::Update { id: 42, width: 512, height: 128 });
    assert_eq!(gui.font_tex_id, 42);
}

#[test]
fn upload_plan_uses_unset_sentinel() {
    assert_eq!(
        plan_font_upload(TEXTURE_UNSET, 16, 16),
        AtlasUpload::Create { width: 16, height: 16 }
    );
    assert_eq!(
        plan_font_upload(3, 16, 16),
        AtlasUpload::Update { id: 3, width: 16, height: 16 }
    );
}

#[test]
fn shutdown_releases_texture_once() {
    let mut gui = RaylibGui::new(false);
    gui.store_font_texture(7);
    assert_eq!(gui.shutdown(), Some(7));
    assert_eq!(gui.shutdown(), None);
}

#[test]
fn settings_round_trip_is_verbatim() {
    let blob = String::from("[Window][Demo]\nPos=60,60\nSize=400,400\n");
    let written = save_ini_settings(Some(String::from("layout.ini")), blob.clone());
    let (path, contents) = written.unwrap();
    assert_eq!(path, "layout.ini");
    assert_eq!(contents, blob);
    let reloaded = load_ini_settings(&Some(path), Some(contents));
    assert_eq!(reloaded, Some(blob));
}

#[test]
fn no_ini_path_writes_nothing() {
    assert_eq!(save_ini_settings(None, String::from("data")), None);
    assert_eq!(load_ini_settings(&None, Some(String::from("data"))), None);
}

#[test]
fn missing_ini_file_loads_nothing() {
    assert_eq!(load_ini_settings(&Some(String::from("layout.ini")), None), None);
}

#[test]
fn clipboard_drops_interior_nul() {
    assert_eq!(clipboard_set_plan(vec![b'h', 0u8, b'i']), None);
    assert_eq!(clipboard_set_plan(vec![b'h', b'i']), Some(vec![b'h', b'i']));
    assert_eq!(clipboard_set_plan(vec![]), Some(vec![]));
}
