//! The frame lifecycle adapter: owns the per-window mutable state (modifier
//! cache, cursor cache, glyph-atlas texture id, the translation tables) and
//! sequences one frame through its phases.
//!
//! Phases: `Idle` -> `InputPrepared` (input translated and the frame
//! prepared) -> `FrameBuilding` (the engine has started its frame) ->
//! `Idle` (the draw data was rendered).  Rendering is allowed only from
//! `FrameBuilding`; invoking it from any other phase is a caller error.
use vstd::prelude::*;
use crate::atlas::{AtlasUpload, TEXTURE_UNSET, upload_plan, plan_font_upload};
use crate::cursor::GuiCursor;
use crate::events::GuiEvent;
use crate::frame::{FrameSnapshot, EngineFrameState, FramePrep, prepare_frame, frame_events_spec,
    cursor_action_spec, next_cursor_cache, display_width_spec, display_height_spec, scale_x_spec,
    scale_y_spec};
use crate::input::{InputSnapshot, InputFlags, ModifierState, translate_input, translate_spec,
    next_modifiers, snapshot_wf};
use crate::keymap::{HostKey, GuiKey, HostGamepadButton, HostGamepadAxis, key_table, button_table,
    axis_table, key_mapping, button_mapping, axis_mapping};
use crate::render::{DrawData, DisplayMetrics, RenderOp, RenderError, Renderer, draw_data_wf,
    metrics_wf, render_ops, has_reset};

verus! {

/// The theme the engine's default colors are selected from.
#[derive(Clone, Copy, Debug, PartialEq, Eq, Structural)]
pub enum Style {
    Dark,
    Light,
    Classic,
}

/// Where the adapter stands in the frame lifecycle.
#[derive(Clone, Copy, Debug, PartialEq, Eq, Structural)]
pub enum FramePhase {
    Idle,
    InputPrepared,
    FrameBuilding,
}

/// The adapter instance owned by one application window.
pub struct RaylibGui {
    /// Where the adapter stands in the frame lifecycle.
    pub phase: FramePhase,
    /// The cached logical modifier states of the previous frame.
    pub mods: ModifierState,
    /// The cursor shape last set on the host, if any.
    pub current_mouse_cursor: Option<GuiCursor>,
    /// The window-focus state of the previous frame (tracked for future
    /// focus events; not consumed yet).
    pub last_frame_focused: bool,
    /// The glyph-atlas texture id; the unset sentinel until created.
    pub font_tex_id: u32,
    /// The key mapping table.
    pub keys: Vec<(HostKey, GuiKey)>,
    /// The gamepad button table.
    pub gamepad_map: Vec<(HostGamepadButton, GuiKey)>,
    /// The gamepad axis table.
    pub gamepad_axis: Vec<(HostGamepadAxis, GuiKey, GuiKey)>,
}

impl RaylibGui {
    /// The adapter's tables hold exactly the fixed translation data.
    pub open spec fn wf(&self) -> bool {
        &&& self.keys@ == key_table()
        &&& self.gamepad_map@ == button_table()
        &&& self.gamepad_axis@ == axis_table()
    }

    /// Constructs the adapter for a window: fresh edge-detection state, no
    /// cursor set, no atlas texture yet, and the fixed translation tables.
    pub fn new(focused: bool) -> (g: RaylibGui)
        ensures
            g.wf(),
            g.phase == FramePhase::Idle,
            g.mods == (ModifierState { ctrl: false, shift: false, alt: false, super_key: false }),
            g.current_mouse_cursor is None,
            g.last_frame_focused == focused,
            g.font_tex_id == TEXTURE_UNSET,
    {
        RaylibGui {
            phase: FramePhase::Idle,
            mods: ModifierState::new(),
            current_mouse_cursor: None,
            last_frame_focused: focused,
            font_tex_id: TEXTURE_UNSET,
            keys: key_mapping(),
            gamepad_map: button_mapping(),
            gamepad_axis: axis_mapping(),
        }
    }

    /// Translates one frame of host input into the engine's ordered event
    /// sequence and advances the modifier cache.
    pub fn handle_events(&mut self, snap: &InputSnapshot, flags: InputFlags) -> (events: Vec<
        GuiEvent,
    >)
        requires
            old(self).wf(),
            old(self).phase == FramePhase::Idle,
            snapshot_wf(snap@),
        ensures
            final(self).wf(),
            events@ == translate_spec(
                old(self).mods,
                key_table(),
                button_table(),
                axis_table(),
                snap@,
                flags,
            ),
            final(self).mods == next_modifiers(snap@.keys_down),
            final(self).phase == FramePhase::Idle,
            final(self).current_mouse_cursor == old(self).current_mouse_cursor,
            final(self).last_frame_focused == old(self).last_frame_focused,
            final(self).font_tex_id == old(self).font_tex_id,
    {
        translate_input(
            &mut self.mods,
            &self.keys,
            &self.gamepad_map,
            &self.gamepad_axis,
            snap,
            flags,
        )
    }

    /// Prepares the engine's per-frame global state and advances to
    /// `InputPrepared`.
    pub fn prepare_frame(
        &mut self,
        snap: &FrameSnapshot,
        eng: &EngineFrameState,
        delta_micros: u32,
    ) -> (prep: FramePrep)
        requires
            old(self).wf(),
            old(self).phase == FramePhase::Idle,
        ensures
            final(self).wf(),
            prep.display_width == display_width_spec(snap@),
            prep.display_height == display_height_spec(snap@),
            prep.scale_x == scale_x_spec(snap@),
            prep.scale_y == scale_y_spec(snap@),
            prep.delta_micros == delta_micros,
            prep.warp_mouse == (if eng.want_set_mouse_pos {
                Some((eng.mouse_pos_x, eng.mouse_pos_y))
            } else {
                None::<(i32, i32)>
            }),
            prep.events@ == frame_events_spec(snap@, eng.want_set_mouse_pos),
            prep.cursor == cursor_action_spec(old(self).current_mouse_cursor, *eng),
            final(self).current_mouse_cursor == next_cursor_cache(
                old(self).current_mouse_cursor,
                *eng,
            ),
            final(self).phase == FramePhase::InputPrepared,
            final(self).mods == old(self).mods,
            final(self).last_frame_focused == old(self).last_frame_focused,
            final(self).font_tex_id == old(self).font_tex_id,
    {
        let prep = prepare_frame(&mut self.current_mouse_cursor, snap, eng, delta_micros);
        self.phase = FramePhase::InputPrepared;
        prep
    }

    /// One whole input step: event translation followed by frame
    /// preparation, with the frame delta supplied by the caller.
    pub fn update_delta(
        &mut self,
        snap: &InputSnapshot,
        flags: InputFlags,
        fsnap: &FrameSnapshot,
        eng: &EngineFrameState,
        delta_micros: u32,
    ) -> (r: (Vec<GuiEvent>, FramePrep))
        requires
            old(self).wf(),
            old(self).phase == FramePhase::Idle,
            snapshot_wf(snap@),
        ensures
            final(self).wf(),
            r.0@ == translate_spec(
                old(self).mods,
                key_table(),
                button_table(),
                axis_table(),
                snap@,
                flags,
            ),
            final(self).mods == next_modifiers(snap@.keys_down),
            r.1.events@ == frame_events_spec(fsnap@, eng.want_set_mouse_pos),
            r.1.cursor == cursor_action_spec(old(self).current_mouse_cursor, *eng),
            final(self).current_mouse_cursor == next_cursor_cache(
                old(self).current_mouse_cursor,
                *eng,
            ),
            r.1.display_width == display_width_spec(fsnap@),
            r.1.display_height == display_height_spec(fsnap@),
            r.1.scale_x == scale_x_spec(fsnap@),
            r.1.scale_y == scale_y_spec(fsnap@),
            r.1.delta_micros == delta_micros,
            final(self).phase == FramePhase::InputPrepared,
            final(self).font_tex_id == old(self).font_tex_id,
    {
        let events = self.handle_events(snap, flags);
        let prep = self.prepare_frame(fsnap, eng, delta_micros);
        (events, prep)
    }

    /// Marks the engine's frame as started: widget code may now run.
    pub fn new_frame(&mut self)
        requires
            old(self).phase == FramePhase::InputPrepared,
        ensures
            *final(self) == (RaylibGui { phase: FramePhase::FrameBuilding, ..*old(self) }),
    {
        self.phase = FramePhase::FrameBuilding;
    }

    /// One whole frame beginning: input step then frame start.
    pub fn begin_delta(
        &mut self,
        snap: &InputSnapshot,
        flags: InputFlags,
        fsnap: &FrameSnapshot,
        eng: &EngineFrameState,
        delta_micros: u32,
    ) -> (r: (Vec<GuiEvent>, FramePrep))
        requires
            old(self).wf(),
            old(self).phase == FramePhase::Idle,
            snapshot_wf(snap@),
        ensures
            final(self).wf(),
            r.0@ == translate_spec(
                old(self).mods,
                key_table(),
                button_table(),
                axis_table(),
                snap@,
                flags,
            ),
            final(self).mods == next_modifiers(snap@.keys_down),
            r.1.events@ == frame_events_spec(fsnap@, eng.want_set_mouse_pos),
            r.1.cursor == cursor_action_spec(old(self).current_mouse_cursor, *eng),
            final(self).current_mouse_cursor == next_cursor_cache(
                old(self).current_mouse_cursor,
                *eng,
            ),
            final(self).phase == FramePhase::FrameBuilding,
            final(self).font_tex_id == old(self).font_tex_id,
    {
        let r = self.update_delta(snap, flags, fsnap, eng, delta_micros);
        self.new_frame();
        r
    }

    /// Renders the engine's finished draw data and returns to `Idle`.
    /// This is the only phase from which rendering may run.  On the one
    /// unsupported command the render aborts loudly and the frame stays
    /// unfinished.
    pub fn end(&mut self, dd: &DrawData, m: DisplayMetrics) -> (r: Result<
        Vec<RenderOp>,
        RenderError,
    >)
        requires
            old(self).phase == FramePhase::FrameBuilding,
            draw_data_wf(dd@),
            metrics_wf(m),
        ensures
            r is Ok <==> !has_reset(dd@),
            r matches Ok(ops) ==> ops@ == render_ops(dd@, m),
            r is Ok ==> *final(self) == (RaylibGui { phase: FramePhase::Idle, ..*old(self) }),
            r is Err ==> *final(self) == *old(self),
    {
        let r = Renderer::render(dd, m);
        if r.is_ok() {
            self.phase = FramePhase::Idle;
        }
        r
    }

    /// Renders the finished frame; the same operation as `end`.
    pub fn render(&mut self, dd: &DrawData, m: DisplayMetrics) -> (r: Result<
        Vec<RenderOp>,
        RenderError,
    >)
        requires
            old(self).phase == FramePhase::FrameBuilding,
            draw_data_wf(dd@),
            metrics_wf(m),
        ensures
            r is Ok <==> !has_reset(dd@),
            r matches Ok(ops) ==> ops@ == render_ops(dd@, m),
            r is Ok ==> *final(self) == (RaylibGui { phase: FramePhase::Idle, ..*old(self) }),
            r is Err ==> *final(self) == *old(self),
    {
        self.end(dd, m)
    }

    /// Decides the font-atlas upload for a freshly built glyph bitmap:
    /// create on first use, update in place afterwards.
    pub fn reload_fonts(&mut self, width: u32, height: u32) -> (u: AtlasUpload)
        ensures
            u == upload_plan(old(self).font_tex_id, width, height),
            *final(self) == *old(self),
    {
        plan_font_upload(self.font_tex_id, width, height)
    }

    /// Records the texture id the host returned for a created atlas.
    pub fn store_font_texture(&mut self, id: u32)
        requires
            id != TEXTURE_UNSET,
        ensures
            *final(self) == (RaylibGui { font_tex_id: id, ..*old(self) }),
    {
        self.font_tex_id = id;
    }

    /// Begins teardown: reports the atlas texture to release, if one was
    /// created, and forgets it.  The caller then persists the layout blob.
    pub fn shutdown(&mut self) -> (t: Option<u32>)
        ensures
            t == (if old(self).font_tex_id != TEXTURE_UNSET {
                Some(old(self).font_tex_id)
            } else {
                None::<u32>
            }),
            *final(self) == (RaylibGui { font_tex_id: TEXTURE_UNSET, ..*old(self) }),
    {
        if self.font_tex_id != TEXTURE_UNSET {
            let id = self.font_tex_id;
            self.font_tex_id = TEXTURE_UNSET;
            Some(id)
        } else {
            None
        }
    }
}

} // verus!
