//! Abstract input events fed into the GUI engine's input queue, and the
//! mouse-button identifiers on both sides of the boundary.
//!
//! Analog magnitudes and scroll deltas are carried in thousandths
//! (milli-units) of the host's normalized values.
use vstd::prelude::*;
use crate::keymap::GuiKey;

verus! {

/// A host mouse button.
#[derive(Clone, Copy, Debug, PartialEq, Eq, Structural)]
pub enum HostMouseButton {
    Left,
    Right,
    Middle,
    Forward,
    Back,
}

/// A mouse button in the GUI engine's input model.
#[derive(Clone, Copy, Debug, PartialEq, Eq, Structural)]
pub enum GuiMouseButton {
    Left,
    Right,
    Middle,
    Extra1,
    Extra2,
}

/// One ordered input event for the GUI engine, valid for the current frame
/// only.
#[derive(Clone, Copy, Debug, PartialEq, Eq, Structural)]
pub enum GuiEvent {
    /// A digital key (or gamepad button, or modifier) transition.
    Key { key: GuiKey, down: bool },
    /// A gamepad axis direction: a digital active flag plus an analog
    /// magnitude in milli-units, zero when inactive.
    KeyAnalog { key: GuiKey, active: bool, value: i32 },
    /// One character of text input, in arrival order.
    Text { ch: char },
    /// A mouse button transition.
    MouseButton { button: GuiMouseButton, down: bool },
    /// The pointer position in logical pixels.
    MousePos { x: i32, y: i32 },
    /// The scroll-wheel delta for the frame, both axes, in milli-units.
    MouseWheel { x: i32, y: i32 },
}

/// A key (or button, or modifier) transition event.
pub open spec fn key_ev(key: GuiKey, down: bool) -> GuiEvent {
    GuiEvent::Key { key, down }
}

/// An analog axis-direction event.
pub open spec fn analog_ev(key: GuiKey, active: bool, value: i32) -> GuiEvent {
    GuiEvent::KeyAnalog { key, active, value }
}

/// A text-input event.
pub open spec fn text_ev(ch: char) -> GuiEvent {
    GuiEvent::Text { ch }
}

/// A mouse button transition event.
pub open spec fn mouse_button_ev(button: GuiMouseButton, down: bool) -> GuiEvent {
    GuiEvent::MouseButton { button, down }
}

/// A pointer-position event.
pub open spec fn mouse_pos_ev(x: i32, y: i32) -> GuiEvent {
    GuiEvent::MousePos { x, y }
}

/// A scroll-wheel event.
pub open spec fn mouse_wheel_ev(x: i32, y: i32) -> GuiEvent {
    GuiEvent::MouseWheel { x, y }
}

/// How many times event `e` occurs in `s`.
pub open spec fn count_events(s: Seq<GuiEvent>, e: GuiEvent) -> nat
    decreases s.len(),
{
    if s.len() == 0 {
        0
    } else {
        count_events(s.drop_last(), e) + if s.last() == e {
            1nat
        } else {
            0nat
        }
    }
}

/// Event counts add up across concatenation.
pub proof fn lemma_count_concat(a: Seq<GuiEvent>, b: Seq<GuiEvent>, e: GuiEvent)
    ensures
        count_events(a + b, e) == count_events(a, e) + count_events(b, e),
    decreases b.len(),
{
    if b.len() == 0 {
        assert(a + b =~= a);
    } else {
        assert((a + b).drop_last() =~= a + b.drop_last());
        assert((a + b).last() == b.last());
        lemma_count_concat(a, b.drop_last(), e);
    }
}

/// A singleton counts one occurrence of its element and none of any
/// other.
pub proof fn lemma_count_singleton(e: GuiEvent, probe: GuiEvent)
    ensures
        count_events(seq![e], probe) == if e == probe {
            1nat
        } else {
            0nat
        },
{
    assert(count_events(Seq::<GuiEvent>::empty(), probe) == 0);
    assert(seq![e].drop_last() =~= Seq::<GuiEvent>::empty());
    assert(seq![e].len() == 1);
    assert(seq![e].last() == e);
    assert(count_events(seq![e], probe) == count_events(seq![e].drop_last(), probe) + if seq![e].last() == probe {
        1nat
    } else {
        0nat
    });
}

} // verus!
