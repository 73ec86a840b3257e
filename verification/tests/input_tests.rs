use rlimgui::events::GuiEvent;
use rlimgui::input::{InputFlags, InputSnapshot};
use rlimgui::keymap::{GuiKey, HostGamepadAxis, HostGamepadButton, HostKey};
use rlimgui::lifecycle::{FramePhase, RaylibGui};

fn empty_snapshot() -> InputSnapshot {
    InputSnapshot {
        keys_pressed: vec![],
        keys_released: vec![],
        keys_down: vec![],
        chars_pressed: vec![],
        gamepad_available: false,
        buttons_pressed: vec![],
        buttons_released: vec![],
        axis_values: vec![],
    }
}

fn no_flags() -> InputFlags {
    InputFlags { want_capture_keyboard: false, gamepad_nav: false }
}

#[test]
fn key_press_then_release_two_frames() {
    let mut gui = RaylibGui::new(false);
    let mut press = empty_snapshot();
    press.keys_pressed = vec![HostKey::A];
    press.keys_down = vec![HostKey::A];
    let events = gui.handle_events(&press, no_flags());
    assert_eq!(events, vec![GuiEvent::Key { key: GuiKey::A, down: true }]);

    let mut release = empty_snapshot();
    release.keys_released = vec![HostKey::A];
    let events = gui.handle_events(&release, no_flags());
    assert_eq!(events, vec![GuiEvent::Key { key: GuiKey::A, down: false }]);
}

#[test]
fn no_transition_emits_no_events() {
    let mut gui = RaylibGui::new(false);
    let events = gui.handle_events(&empty_snapshot(), no_flags());
    assert_eq!(events, vec![]);
}

#[test]
fn digit_row_aliases_keypad() {
    let mut gui = RaylibGui::new(false);
    let mut snap = empty_snapshot();
    snap.keys_pressed = vec![HostKey::Zero, HostKey::Kp0];
    snap.keys_down = vec![HostKey::Zero, HostKey::Kp0];
    let events = gui.handle_events(&snap, no_flags());
    assert_eq!(
        events,
        vec![
            GuiEvent::Key { key: GuiKey::Keypad0, down: true },
            GuiEvent::Key { key: GuiKey::Keypad0, down: true },
        ]
    );
}

#[test]
fn press_and_release_in_same_frame_reports_both() {
    let mut gui = RaylibGui::new(false);
    let mut snap = empty_snapshot();
    snap.keys_pressed = vec![HostKey::Enter];
    snap.keys_released = vec![HostKey::Enter];
    let events = gui.handle_events(&snap, no_flags());
    assert_eq!(
        events,
        vec![
            GuiEvent::Key { key: GuiKey::Enter, down: true },
            GuiEvent::Key { key: GuiKey::Enter, down: false },
        ]
    );
}

#[test]
fn control_held_ten_frames_emits_one_event() {
    let mut gui = RaylibGui::new(false);
    let mut snap = empty_snapshot();
    snap.keys_down = vec![HostKey::LeftControl];
    let events = gui.handle_events(&snap, no_flags());
    assert_eq!(events, vec![GuiEvent::Key { key: GuiKey::ModCtrl, down: true }]);
    for _ in 0..9 {
        let mut snap = empty_snapshot();
        snap.keys_down = vec![HostKey::LeftControl];
        let events = gui.handle_events(&snap, no_flags());
        assert_eq!(events, vec![]);
    }
}

#[test]
fn modifier_release_emits_one_up_event() {
    let mut gui = RaylibGui::new(false);
    let mut snap = empty_snapshot();
    snap.keys_down = vec![HostKey::RightShift];
    let events = gui.handle_events(&snap, no_flags());
    assert_eq!(events, vec![GuiEvent::Key { key: GuiKey::ModShift, down: true }]);
    let events = gui.handle_events(&empty_snapshot(), no_flags());
    assert_eq!(events, vec![GuiEvent::Key { key: GuiKey::ModShift, down: false }]);
}

#[test]
fn either_physical_variant_counts_as_modifier() {
    let mut gui = RaylibGui::new(false);
    let mut snap = empty_snapshot();
    snap.keys_down = vec![HostKey::RightAlt];
    let events = gui.handle_events(&snap, no_flags());
    assert_eq!(events, vec![GuiEvent::Key { key: GuiKey::ModAlt, down: true }]);
    // switching to the other physical variant keeps the logical state: no edge
    let mut snap = empty_snapshot();
    snap.keys_down = vec![HostKey::LeftAlt];
    let events = gui.handle_events(&snap, no_flags());
    assert_eq!(events, vec![]);
}

#[test]
fn text_drained_only_when_wanted() {
    let mut gui = RaylibGui::new(false);
    let mut snap = empty_snapshot();
    snap.chars_pressed = vec!['h', 'i'];
    let events = gui.handle_events(&snap, no_flags());
    assert_eq!(events, vec![]);
    let mut snap = empty_snapshot();
    snap.chars_pressed = vec!['h', 'i'];
    let flags = InputFlags { want_capture_keyboard: true, gamepad_nav: false };
    let events = gui.handle_events(&snap, flags);
    assert_eq!(
        events,
        vec![GuiEvent::Text { ch: 'h' }, GuiEvent::Text { ch: 'i' }]
    );
}

#[test]
fn gamepad_skipped_when_unavailable() {
    let mut gui = RaylibGui::new(false);
    let mut snap = empty_snapshot();
    snap.gamepad_available = false;
    snap.buttons_pressed = vec![HostGamepadButton::RightFaceDown];
    let flags = InputFlags { want_capture_keyboard: false, gamepad_nav: true };
    let events = gui.handle_events(&snap, flags);
    assert_eq!(events, vec![]);
}

#[test]
fn gamepad_button_edges() {
    let mut gui = RaylibGui::new(false);
    let mut snap = empty_snapshot();
    snap.gamepad_available = true;
    snap.buttons_pressed = vec![HostGamepadButton::RightFaceDown];
    snap.buttons_released = vec![HostGamepadButton::MiddleLeft];
    let flags = InputFlags { want_capture_keyboard: false, gamepad_nav: true };
    let events = gui.handle_events(&snap, flags);
    // button events come first, then the four axes (all at rest)
    assert_eq!(events[0], GuiEvent::Key { key: GuiKey::GamepadFaceDown, down: true });
    assert_eq!(events[1], GuiEvent::Key { key: GuiKey::GamepadStart, down: false });
    assert_eq!(events.len(), 2 + 8);
    for e in &events[2..] {
        match e {
            GuiEvent::KeyAnalog { active, value, .. } => {
                assert!(!active);
                assert_eq!(*value, 0);
            },
            other => panic!("expected analog event, got {:?}", other),
        }
    }
}

#[test]
fn axis_below_deadzone_is_inactive() {
    let mut gui = RaylibGui::new(false);
    let mut snap = empty_snapshot();
    snap.gamepad_available = true;
    snap.axis_values = vec![(HostGamepadAxis::LeftX, 150)];
    let flags = InputFlags { want_capture_keyboard: false, gamepad_nav: true };
    let events = gui.handle_events(&snap, flags);
    assert_eq!(events.len(), 8);
    assert_eq!(
        events[0],
        GuiEvent::KeyAnalog { key: GuiKey::GamepadLStickRight, active: false, value: 0 }
    );
    assert_eq!(
        events[1],
        GuiEvent::KeyAnalog { key: GuiKey::GamepadLStickLeft, active: false, value: 0 }
    );
}

#[test]
fn axis_beyond_deadzone_activates_matching_direction() {
    let mut gui = RaylibGui::new(false);
    let mut snap = empty_snapshot();
    snap.gamepad_available = true;
    snap.axis_values = vec![(HostGamepadAxis::LeftX, 500)];
    let flags = InputFlags { want_capture_keyboard: false, gamepad_nav: true };
    let events = gui.handle_events(&snap, flags);
    assert_eq!(
        events[0],
        GuiEvent::KeyAnalog { key: GuiKey::GamepadLStickRight, active: false, value: 0 }
    );
    assert_eq!(
        events[1],
        GuiEvent::KeyAnalog { key: GuiKey::GamepadLStickLeft, active: true, value: 500 }
    );
}

#[test]
fn axis_negative_activates_other_direction() {
    let mut gui = RaylibGui::new(false);
    let mut snap = empty_snapshot();
    snap.gamepad_available = true;
    snap.axis_values = vec![(HostGamepadAxis::RightY, -700)];
    let flags = InputFlags { want_capture_keyboard: false, gamepad_nav: true };
    let events = gui.handle_events(&snap, flags);
    assert_eq!(
        events[6],
        GuiEvent::KeyAnalog { key: GuiKey::GamepadRStickDown, active: true, value: 700 }
    );
    assert_eq!(
        events[7],
        GuiEvent::KeyAnalog { key: GuiKey::GamepadRStickUp, active: false, value: 0 }
    );
}

#[test]
fn axis_exactly_at_deadzone_is_inactive() {
    let mut gui = RaylibGui::new(false);
    let mut snap = empty_snapshot();
    snap.gamepad_available = true;
    snap.axis_values = vec![(HostGamepadAxis::LeftY, 200), (HostGamepadAxis::RightX, -200)];
    let flags = InputFlags { want_capture_keyboard: false, gamepad_nav: true };
    let events = gui.handle_events(&snap, flags);
    for e in &events {
        match e {
            GuiEvent::KeyAnalog { active, value, .. } => {
                assert!(!active);
                assert_eq!(*value, 0);
            },
            other => panic!("expected analog event, got {:?}", other),
        }
    }
}

#[test]
fn handle_events_keeps_phase_idle() {
    let mut gui = RaylibGui::new(false);
    let _ = gui.handle_events(&empty_snapshot(), no_flags());
    assert_eq!(gui.phase, FramePhase::Idle);
}

#[test]
fn event_passes_keep_their_fixed_order() {
    let mut gui = RaylibGui::new(false);
    // seed the shift cache as held
    let mut warm = empty_snapshot();
    warm.keys_down = vec![HostKey::LeftShift];
    let _ = gui.handle_events(&warm, no_flags());
    // press one key, release another, and drop shift in the same frame:
    // press sweep, then release sweep, then the modifier edge
    let mut snap = empty_snapshot();
    snap.keys_pressed = vec![HostKey::B];
    snap.keys_released = vec![HostKey::C];
    snap.keys_down = vec![HostKey::B];
    let events = gui.handle_events(&snap, no_flags());
    assert_eq!(
        events,
        vec![
            GuiEvent::Key { key: GuiKey::B, down: true },
            GuiEvent::Key { key: GuiKey::C, down: false },
            GuiEvent::Key { key: GuiKey::ModShift, down: false },
        ]
    );
}
