//! Per-frame synchronization of the GUI engine's global state before layout
//! begins: display size, framebuffer scale, delta time, mouse position and
//! button transitions, the scroll wheel, and the cursor shape.
//!
//! The mouse position is normally read from the host and submitted as an
//! event; when the engine has requested an explicit position set, the host
//! pointer is warped instead and no position event is emitted that frame.
//! The cursor shape is recomputed only on change.
use vstd::prelude::*;
use crate::cursor::{GuiCursor, HostCursor, host_cursor_of};
use crate::events::{GuiEvent, HostMouseButton, GuiMouseButton, mouse_button_ev, mouse_pos_ev,
    mouse_wheel_ev};
use crate::render::MILLI;

verus! {

/// A snapshot of the host's display and mouse state for one frame.
pub struct FrameSnapshot {
    /// Whether the window is fullscreen this frame.
    pub fullscreen: bool,
    /// The fullscreen monitor's resolution, in logical pixels.
    pub monitor_width: u32,
    pub monitor_height: u32,
    /// The window's client size, in logical pixels.
    pub window_width: u32,
    pub window_height: u32,
    /// Whether high-DPI mode is active.
    pub highdpi: bool,
    /// The host's per-axis DPI scale factor, in milli-units.
    pub dpi_scale_x: i64,
    pub dpi_scale_y: i64,
    /// The host pointer position, in logical pixels.
    pub mouse_x: i32,
    pub mouse_y: i32,
    /// Mouse buttons reported as pressed this frame.
    pub mouse_pressed: Vec<HostMouseButton>,
    /// Mouse buttons reported as released this frame.
    pub mouse_released: Vec<HostMouseButton>,
    /// The scroll-wheel delta, both axes, in milli-units.
    pub wheel_x: i32,
    pub wheel_y: i32,
}

/// The mathematical content of a frame snapshot.
pub struct FrameSnapshotView {
    pub fullscreen: bool,
    pub monitor_width: u32,
    pub monitor_height: u32,
    pub window_width: u32,
    pub window_height: u32,
    pub highdpi: bool,
    pub dpi_scale_x: i64,
    pub dpi_scale_y: i64,
    pub mouse_x: i32,
    pub mouse_y: i32,
    pub mouse_pressed: Seq<HostMouseButton>,
    pub mouse_released: Seq<HostMouseButton>,
    pub wheel_x: i32,
    pub wheel_y: i32,
}

impl View for FrameSnapshot {
    type V = FrameSnapshotView;

    open spec fn view(&self) -> FrameSnapshotView {
        FrameSnapshotView {
            fullscreen: self.fullscreen,
            monitor_width: self.monitor_width,
            monitor_height: self.monitor_height,
            window_width: self.window_width,
            window_height: self.window_height,
            highdpi: self.highdpi,
            dpi_scale_x: self.dpi_scale_x,
            dpi_scale_y: self.dpi_scale_y,
            mouse_x: self.mouse_x,
            mouse_y: self.mouse_y,
            mouse_pressed: self.mouse_pressed@,
            mouse_released: self.mouse_released@,
            wheel_x: self.wheel_x,
            wheel_y: self.wheel_y,
        }
    }
}

/// What the GUI engine's per-frame flags and requests say to the frame
/// preparer.
#[derive(Clone, Copy, Debug)]
pub struct EngineFrameState {
    /// The engine requested an explicit mouse-position set.
    pub want_set_mouse_pos: bool,
    /// The engine's current mouse position, in milli-units of logical
    /// pixels; honored only when a set was requested.
    pub mouse_pos_x: i32,
    pub mouse_pos_y: i32,
    /// The engine's capability flags declare cursor-shape support.
    pub has_mouse_cursors: bool,
    /// The engine has disabled cursor changes.
    pub no_mouse_cursor_change: bool,
    /// The engine demands a custom-drawn cursor every frame.
    pub mouse_draw_cursor: bool,
    /// The cursor shape the engine requests, if any.
    pub cursor: Option<GuiCursor>,
}

/// What to do with the host cursor this frame.
#[derive(Clone, Copy, Debug, PartialEq, Eq, Structural)]
pub enum CursorAction {
    /// The requested shape did not change; leave the host cursor alone.
    Unchanged,
    /// Hide the host cursor (custom-drawn cursor or no shape requested).
    Hide,
    /// Show the host cursor with the mapped native shape.
    Show { shape: HostCursor },
}

/// A cursor-show action.
pub open spec fn cursor_show(shape: HostCursor) -> CursorAction {
    CursorAction::Show { shape }
}

/// Everything the frame preparer computed for one frame.
pub struct FramePrep {
    /// The logical display size for the engine.
    pub display_width: u32,
    pub display_height: u32,
    /// The framebuffer scale for the engine, in milli-units.
    pub scale_x: i64,
    pub scale_y: i64,
    /// The frame delta time, in microseconds.
    pub delta_micros: u32,
    /// When the engine requested a position set: the position (in
    /// milli-units of logical pixels) to warp the host pointer to.
    pub warp_mouse: Option<(i32, i32)>,
    /// The mouse events to submit: position (unless warping), the five
    /// button transitions, then the wheel.
    pub events: Vec<GuiEvent>,
    /// What to do with the host cursor.
    pub cursor: CursorAction,
}

/// The logical display width: the monitor's when fullscreen, else the
/// window's.
pub open spec fn display_width_spec(s: FrameSnapshotView) -> u32 {
    if s.fullscreen {
        s.monitor_width
    } else {
        s.window_width
    }
}

/// The logical display height.
pub open spec fn display_height_spec(s: FrameSnapshotView) -> u32 {
    if s.fullscreen {
        s.monitor_height
    } else {
        s.window_height
    }
}

/// The horizontal framebuffer scale: the DPI factor when high-DPI mode is
/// active, else one.
pub open spec fn scale_x_spec(s: FrameSnapshotView) -> i64 {
    if s.highdpi {
        s.dpi_scale_x
    } else {
        MILLI
    }
}

/// The vertical framebuffer scale.
pub open spec fn scale_y_spec(s: FrameSnapshotView) -> i64 {
    if s.highdpi {
        s.dpi_scale_y
    } else {
        MILLI
    }
}

/// One mouse button's transition events: a press beats a release reported
/// in the same frame.
pub open spec fn mouse_btn_edge(
    pressed: Seq<HostMouseButton>,
    released: Seq<HostMouseButton>,
    hb: HostMouseButton,
    gb: GuiMouseButton,
) -> Seq<GuiEvent> {
    if pressed.contains(hb) {
        seq![mouse_button_ev(gb, true)]
    } else if released.contains(hb) {
        seq![mouse_button_ev(gb, false)]
    } else {
        Seq::empty()
    }
}

/// The mouse events of one frame: the position event (unless the engine
/// warps the pointer), the five button transitions in their fixed order,
/// then the scroll wheel, even when zero.
pub open spec fn frame_events_spec(s: FrameSnapshotView, warp: bool) -> Seq<GuiEvent> {
    (if warp {
        Seq::empty()
    } else {
        seq![mouse_pos_ev(s.mouse_x, s.mouse_y)]
    }) + mouse_btn_edge(s.mouse_pressed, s.mouse_released, HostMouseButton::Left,
        GuiMouseButton::Left) + mouse_btn_edge(s.mouse_pressed, s.mouse_released,
        HostMouseButton::Right, GuiMouseButton::Right) + mouse_btn_edge(s.mouse_pressed,
        s.mouse_released, HostMouseButton::Middle, GuiMouseButton::Middle) + mouse_btn_edge(
        s.mouse_pressed, s.mouse_released, HostMouseButton::Forward, GuiMouseButton::Extra1)
        + mouse_btn_edge(s.mouse_pressed, s.mouse_released, HostMouseButton::Back,
        GuiMouseButton::Extra2) + seq![mouse_wheel_ev(s.wheel_x, s.wheel_y)]
}

/// What happens to the host cursor: only acts when the engine supports
/// cursor shapes and has not disabled changes, and only on change (or when
/// a custom-drawn cursor is demanded).
pub open spec fn cursor_action_spec(cached: Option<GuiCursor>, eng: EngineFrameState) -> CursorAction {
    if eng.has_mouse_cursors && !eng.no_mouse_cursor_change {
        if eng.cursor != cached || eng.mouse_draw_cursor {
            if eng.mouse_draw_cursor || eng.cursor is None {
                CursorAction::Hide
            } else {
                cursor_show(host_cursor_of(eng.cursor->0))
            }
        } else {
            CursorAction::Unchanged
        }
    } else {
        CursorAction::Unchanged
    }
}

/// The cached cursor shape after the frame: updated exactly when the
/// preparer acted on a change.
pub open spec fn next_cursor_cache(cached: Option<GuiCursor>, eng: EngineFrameState) -> Option<
    GuiCursor,
> {
    if eng.has_mouse_cursors && !eng.no_mouse_cursor_change && (eng.cursor != cached
        || eng.mouse_draw_cursor) {
        eng.cursor
    } else {
        cached
    }
}

/// Whether `v` holds mouse button `b`.
fn contains_mouse_button(v: &Vec<HostMouseButton>, b: HostMouseButton) -> (r: bool)
    ensures
        r == v@.contains(b),
{
    let mut i: usize = 0;
    while i < v.len()
        invariant
            0 <= i <= v@.len(),
            forall|j: int| 0 <= j < i ==> v@[j] != b,
        decreases v@.len() - i,
    {
        if v[i] == b {
            proof {
                assert(v@[i as int] == b);
            }
            return true;
        }
        i += 1;
    }
    false
}

/// Appends one mouse button's transition events.
fn push_mouse_btn_edge(
    events: &mut Vec<GuiEvent>,
    pressed: &Vec<HostMouseButton>,
    released: &Vec<HostMouseButton>,
    hb: HostMouseButton,
    gb: GuiMouseButton,
)
    ensures
        final(events)@ == old(events)@ + mouse_btn_edge(pressed@, released@, hb, gb),
{
    if contains_mouse_button(pressed, hb) {
        events.push(GuiEvent::MouseButton { button: gb, down: true });
    } else if contains_mouse_button(released, hb) {
        events.push(GuiEvent::MouseButton { button: gb, down: false });
    }
    proof {
        assert(events@ =~= old(events)@ + mouse_btn_edge(pressed@, released@, hb, gb));
    }
}

/// Whether the engine's requested cursor differs from the cached shape.
fn cursor_changed(cached: &Option<GuiCursor>, requested: &Option<GuiCursor>) -> (r: bool)
    ensures
        r == (*requested != *cached),
{
    match (requested, cached) {
        (Option::None, Option::None) => false,
        (Option::Some(a), Option::Some(b)) => a != b,
        _ => true,
    }
}

/// Synchronizes the engine's per-frame state: computes the display size,
/// framebuffer scale and delta time, decides between warping the host
/// pointer and submitting a position event, collects the mouse button and
/// wheel events, and recomputes the cursor shape only on change.
pub fn prepare_frame(
    cached_cursor: &mut Option<GuiCursor>,
    snap: &FrameSnapshot,
    eng: &EngineFrameState,
    delta_micros: u32,
) -> (prep: FramePrep)
    ensures
        prep.display_width == display_width_spec(snap@),
        prep.display_height == display_height_spec(snap@),
        prep.scale_x == scale_x_spec(snap@),
        prep.scale_y == scale_y_spec(snap@),
        prep.delta_micros == delta_micros,
        prep.warp_mouse == (if eng.want_set_mouse_pos {
            Some((eng.mouse_pos_x, eng.mouse_pos_y))
        } else {
            None::<(i32, i32)>
        }),
        prep.events@ == frame_events_spec(snap@, eng.want_set_mouse_pos),
        prep.cursor == cursor_action_spec(*old(cached_cursor), *eng),
        *final(cached_cursor) == next_cursor_cache(*old(cached_cursor), *eng),
{
    let display_width = if snap.fullscreen {
        snap.monitor_width
    } else {
        snap.window_width
    };
    let display_height = if snap.fullscreen {
        snap.monitor_height
    } else {
        snap.window_height
    };
    let scale_x = if snap.highdpi {
        snap.dpi_scale_x
    } else {
        MILLI
    };
    let scale_y = if snap.highdpi {
        snap.dpi_scale_y
    } else {
        MILLI
    };
    let mut events: Vec<GuiEvent> = Vec::new();
    let warp_mouse = if eng.want_set_mouse_pos {
        Some((eng.mouse_pos_x, eng.mouse_pos_y))
    } else {
        events.push(GuiEvent::MousePos { x: snap.mouse_x, y: snap.mouse_y });
        None
    };
    push_mouse_btn_edge(&mut events, &snap.mouse_pressed, &snap.mouse_released,
        HostMouseButton::Left, GuiMouseButton::Left);
    push_mouse_btn_edge(&mut events, &snap.mouse_pressed, &snap.mouse_released,
        HostMouseButton::Right, GuiMouseButton::Right);
    push_mouse_btn_edge(&mut events, &snap.mouse_pressed, &snap.mouse_released,
        HostMouseButton::Middle, GuiMouseButton::Middle);
    push_mouse_btn_edge(&mut events, &snap.mouse_pressed, &snap.mouse_released,
        HostMouseButton::Forward, GuiMouseButton::Extra1);
    push_mouse_btn_edge(&mut events, &snap.mouse_pressed, &snap.mouse_released,
        HostMouseButton::Back, GuiMouseButton::Extra2);
    events.push(GuiEvent::MouseWheel { x: snap.wheel_x, y: snap.wheel_y });
    proof {
        assert(events@ =~= frame_events_spec(snap@, eng.want_set_mouse_pos));
    }
    let cursor: CursorAction;
    if eng.has_mouse_cursors && !eng.no_mouse_cursor_change {
        let changed = cursor_changed(cached_cursor, &eng.cursor);
        if changed || eng.mouse_draw_cursor {
            *cached_cursor = eng.cursor;
            if eng.mouse_draw_cursor {
                cursor = CursorAction::Hide;
            } else {
                match eng.cursor {
                    Option::None => {
                        cursor = CursorAction::Hide;
                    },
                    Option::Some(shape) => {
                        cursor = CursorAction::Show { shape: crate::cursor::to_rl_cursor(shape) };
                    },
                }
            }
        } else {
            cursor = CursorAction::Unchanged;
        }
    } else {
        cursor = CursorAction::Unchanged;
    }
    FramePrep {
        display_width,
        display_height,
        scale_x,
        scale_y,
        delta_micros,
        warp_mouse,
        events,
        cursor,
    }
}

} // verus!
