//! Per-frame translation of a host input snapshot into the ordered sequence
//! of abstract input events handed to the GUI engine.
//!
//! The press and release passes are separate full sweeps over the key table,
//! so a key pressed in one frame and released in another is reported in both.
//! Modifier keys are edge-triggered against the adapter's cached state.
//! Text is drained only when the engine asks for character input; gamepad
//! processing runs only when navigation is enabled and the gamepad is
//! available, with a deadzone applied to the analog axes.
use vstd::prelude::*;
use crate::keymap::{HostKey, GuiKey, HostGamepadButton, HostGamepadAxis, key_table, button_table,
    axis_table};
use crate::events::{GuiEvent, key_ev, analog_ev, text_ev, count_events, lemma_count_concat,
    lemma_count_singleton};

verus! {

/// Axis values with absolute magnitude at or below this bound (in
/// milli-units of the normalized axis range) are treated as zero.
pub const DEADZONE_MILLI: i32 = 200;

/// Magnitude bound of a normalized axis value, in milli-units.
pub const AXIS_RANGE_MILLI: i32 = 1000;

/// A snapshot of the host's already-polled input state for one frame.
pub struct InputSnapshot {
    /// Host keys reported as pressed this frame.
    pub keys_pressed: Vec<HostKey>,
    /// Host keys reported as released this frame.
    pub keys_released: Vec<HostKey>,
    /// Host keys currently held down.
    pub keys_down: Vec<HostKey>,
    /// The host's pressed-character queue, in arrival order.
    pub chars_pressed: Vec<char>,
    /// Whether gamepad index 0 is available this frame.
    pub gamepad_available: bool,
    /// Gamepad buttons reported as pressed this frame.
    pub buttons_pressed: Vec<HostGamepadButton>,
    /// Gamepad buttons reported as released this frame.
    pub buttons_released: Vec<HostGamepadButton>,
    /// Normalized axis positions in milli-units; an absent axis reads zero.
    pub axis_values: Vec<(HostGamepadAxis, i32)>,
}

/// The mathematical content of an input snapshot.
pub struct InputSnapshotView {
    pub keys_pressed: Seq<HostKey>,
    pub keys_released: Seq<HostKey>,
    pub keys_down: Seq<HostKey>,
    pub chars_pressed: Seq<char>,
    pub gamepad_available: bool,
    pub buttons_pressed: Seq<HostGamepadButton>,
    pub buttons_released: Seq<HostGamepadButton>,
    pub axis_values: Seq<(HostGamepadAxis, i32)>,
}

impl View for InputSnapshot {
    type V = InputSnapshotView;

    open spec fn view(&self) -> InputSnapshotView {
        InputSnapshotView {
            keys_pressed: self.keys_pressed@,
            keys_released: self.keys_released@,
            keys_down: self.keys_down@,
            chars_pressed: self.chars_pressed@,
            gamepad_available: self.gamepad_available,
            buttons_pressed: self.buttons_pressed@,
            buttons_released: self.buttons_released@,
            axis_values: self.axis_values@,
        }
    }
}

/// A well-formed snapshot keeps each reported axis inside the normalized
/// range, as the host guarantees of its analog sticks.
pub open spec fn snapshot_wf(s: InputSnapshotView) -> bool {
    forall|i: int|
        0 <= i < s.axis_values.len() ==> -AXIS_RANGE_MILLI <= (#[trigger] s.axis_values[i]).1
            <= AXIS_RANGE_MILLI
}

/// The adapter's cached logical down-state of the four modifier keys, from
/// the previous frame.
#[derive(Clone, Copy, Debug, PartialEq, Eq, Structural)]
pub struct ModifierState {
    pub ctrl: bool,
    pub shift: bool,
    pub alt: bool,
    pub super_key: bool,
}

impl ModifierState {
    /// The state cached before any frame was seen.
    pub fn new() -> (m: ModifierState)
        ensures
            m == (ModifierState { ctrl: false, shift: false, alt: false, super_key: false }),
    {
        ModifierState { ctrl: false, shift: false, alt: false, super_key: false }
    }
}

/// What the GUI engine currently wants from input translation.
#[derive(Clone, Copy, Debug, PartialEq, Eq, Structural)]
pub struct InputFlags {
    /// The engine wants character/text input this frame.
    pub want_capture_keyboard: bool,
    /// The engine has gamepad navigation enabled.
    pub gamepad_nav: bool,
}

/// Events of one full sweep over the key table: one key event per table row
/// whose host key is in `keys`, in table order.
pub open spec fn key_sweep(table: Seq<(HostKey, GuiKey)>, keys: Seq<HostKey>, down: bool) -> Seq<
    GuiEvent,
>
    decreases table.len(),
{
    if table.len() == 0 {
        Seq::empty()
    } else {
        key_sweep(table.drop_last(), keys, down) + if keys.contains(table.last().0) {
            seq![key_ev(table.last().1, down)]
        } else {
            Seq::empty()
        }
    }
}

/// The logical control down-state: either physical variant is down.
pub open spec fn ctrl_down(keys_down: Seq<HostKey>) -> bool {
    keys_down.contains(HostKey::RightControl) || keys_down.contains(HostKey::LeftControl)
}

/// The logical shift down-state.
pub open spec fn shift_down(keys_down: Seq<HostKey>) -> bool {
    keys_down.contains(HostKey::RightShift) || keys_down.contains(HostKey::LeftShift)
}

/// The logical alt down-state.
pub open spec fn alt_down(keys_down: Seq<HostKey>) -> bool {
    keys_down.contains(HostKey::RightAlt) || keys_down.contains(HostKey::LeftAlt)
}

/// The logical super down-state.
pub open spec fn super_down(keys_down: Seq<HostKey>) -> bool {
    keys_down.contains(HostKey::RightSuper) || keys_down.contains(HostKey::LeftSuper)
}

/// An edge-triggered modifier event: emitted only when the computed state
/// differs from the cached state.
pub open spec fn mod_edge(key: GuiKey, was: bool, now: bool) -> Seq<GuiEvent> {
    if was != now {
        seq![key_ev(key, now)]
    } else {
        Seq::empty()
    }
}

/// The modifier events of one frame, in the fixed order control, shift,
/// alt, super.
pub open spec fn modifier_events(st: ModifierState, keys_down: Seq<HostKey>) -> Seq<GuiEvent> {
    mod_edge(GuiKey::ModCtrl, st.ctrl, ctrl_down(keys_down)) + mod_edge(
        GuiKey::ModShift,
        st.shift,
        shift_down(keys_down),
    ) + mod_edge(GuiKey::ModAlt, st.alt, alt_down(keys_down)) + mod_edge(
        GuiKey::ModSuper,
        st.super_key,
        super_down(keys_down),
    )
}

/// The modifier cache after a frame whose held keys are `keys_down`.
pub open spec fn next_modifiers(keys_down: Seq<HostKey>) -> ModifierState {
    ModifierState {
        ctrl: ctrl_down(keys_down),
        shift: shift_down(keys_down),
        alt: alt_down(keys_down),
        super_key: super_down(keys_down),
    }
}

/// One text event per queued character, in arrival order.
pub open spec fn text_events(chars: Seq<char>) -> Seq<GuiEvent>
    decreases chars.len(),
{
    if chars.len() == 0 {
        Seq::empty()
    } else {
        text_events(chars.drop_last()) + seq![text_ev(chars.last())]
    }
}

/// Events of one sweep over the gamepad button table: a press beats a
/// release when the host reports both in the same frame.
pub open spec fn button_sweep(
    table: Seq<(HostGamepadButton, GuiKey)>,
    pressed: Seq<HostGamepadButton>,
    released: Seq<HostGamepadButton>,
) -> Seq<GuiEvent>
    decreases table.len(),
{
    if table.len() == 0 {
        Seq::empty()
    } else {
        button_sweep(table.drop_last(), pressed, released) + if pressed.contains(
            table.last().0,
        ) {
            seq![key_ev(table.last().1, true)]
        } else if released.contains(table.last().0) {
            seq![key_ev(table.last().1, false)]
        } else {
            Seq::empty()
        }
    }
}

/// The first reported value of axis `a`, or zero when absent.
pub open spec fn axis_lookup(values: Seq<(HostGamepadAxis, i32)>, a: HostGamepadAxis) -> i32
    decreases values.len(),
{
    if values.len() == 0 {
        0
    } else if values[0].0 == a {
        values[0].1
    } else {
        axis_lookup(values.drop_first(), a)
    }
}

/// The two independent analog key events of one axis: negative direction
/// first, then positive, each active only beyond the deadzone and carrying
/// a zero magnitude when inactive.
pub open spec fn axis_pair_events(pos: GuiKey, neg: GuiKey, v: i32) -> Seq<GuiEvent> {
    seq![
        analog_ev(
            neg,
            v < -DEADZONE_MILLI,
            if v < -DEADZONE_MILLI {
                (-v) as i32
            } else {
                0
            },
        ),
        analog_ev(
            pos,
            v > DEADZONE_MILLI,
            if v > DEADZONE_MILLI {
                v
            } else {
                0
            },
        ),
    ]
}

/// The analog events of one sweep over the axis table, in table order.
pub open spec fn axis_events(
    table: Seq<(HostGamepadAxis, GuiKey, GuiKey)>,
    values: Seq<(HostGamepadAxis, i32)>,
) -> Seq<GuiEvent>
    decreases table.len(),
{
    if table.len() == 0 {
        Seq::empty()
    } else {
        axis_events(table.drop_last(), values) + axis_pair_events(
            table.last().1,
            table.last().2,
            axis_lookup(values, table.last().0),
        )
    }
}

/// The gamepad portion of a frame's events: empty unless navigation is
/// enabled and the gamepad is available.
pub open spec fn gamepad_events(
    btable: Seq<(HostGamepadButton, GuiKey)>,
    atable: Seq<(HostGamepadAxis, GuiKey, GuiKey)>,
    s: InputSnapshotView,
    nav: bool,
) -> Seq<GuiEvent> {
    if nav && s.gamepad_available {
        button_sweep(btable, s.buttons_pressed, s.buttons_released) + axis_events(
            atable,
            s.axis_values,
        )
    } else {
        Seq::empty()
    }
}

/// The full ordered event sequence of one frame: press sweep, release
/// sweep, modifier edges, text (when wanted), then gamepad.
pub open spec fn translate_spec(
    mods: ModifierState,
    ktable: Seq<(HostKey, GuiKey)>,
    btable: Seq<(HostGamepadButton, GuiKey)>,
    atable: Seq<(HostGamepadAxis, GuiKey, GuiKey)>,
    s: InputSnapshotView,
    flags: InputFlags,
) -> Seq<GuiEvent> {
    key_sweep(ktable, s.keys_pressed, true) + key_sweep(ktable, s.keys_released, false)
        + modifier_events(mods, s.keys_down) + (if flags.want_capture_keyboard {
        text_events(s.chars_pressed)
    } else {
        Seq::empty()
    }) + gamepad_events(btable, atable, s, flags.gamepad_nav)
}

/// Whether `v` holds key `k`.
fn contains_key(v: &Vec<HostKey>, k: HostKey) -> (r: bool)
    ensures
        r == v@.contains(k),
{
    let mut i: usize = 0;
    while i < v.len()
        invariant
            0 <= i <= v@.len(),
            forall|j: int| 0 <= j < i ==> v@[j] != k,
        decreases v@.len() - i,
    {
        if v[i] == k {
            proof {
                assert(v@[i as int] == k);
            }
            return true;
        }
        i += 1;
    }
    false
}

/// Whether `v` holds button `b`.
fn contains_button(v: &Vec<HostGamepadButton>, b: HostGamepadButton) -> (r: bool)
    ensures
        r == v@.contains(b),
{
    let mut i: usize = 0;
    while i < v.len()
        invariant
            0 <= i <= v@.len(),
            forall|j: int| 0 <= j < i ==> v@[j] != b,
        decreases v@.len() - i,
    {
        if v[i] == b {
            proof {
                assert(v@[i as int] == b);
            }
            return true;
        }
        i += 1;
    }
    false
}

/// Appends one full key-table sweep for `keys`.
fn sweep_keys(
    events: &mut Vec<GuiEvent>,
    table: &Vec<(HostKey, GuiKey)>,
    keys: &Vec<HostKey>,
    down: bool,
)
    ensures
        final(events)@ == old(events)@ + key_sweep(table@, keys@, down),
{
    let mut i: usize = 0;
    while i < table.len()
        invariant
            0 <= i <= table@.len(),
            events@ == old(events)@ + key_sweep(table@.take(i as int), keys@, down),
        decreases table@.len() - i,
    {
        let (hk, gk) = table[i];
        proof {
            assert(table@.take(i + 1).drop_last() =~= table@.take(i as int));
            assert(table@.take(i + 1).last() == table@[i as int]);
        }
        if contains_key(keys, hk) {
            events.push(GuiEvent::Key { key: gk, down });
        }
        proof {
            assert(events@ =~= old(events)@ + key_sweep(table@.take(i + 1), keys@, down));
        }
        i += 1;
    }
    proof {
        assert(table@.take(table@.len() as int) =~= table@);
    }
}

/// Emits the edge-triggered modifier events and updates the cache.
fn update_modifiers(mods: &mut ModifierState, events: &mut Vec<GuiEvent>, keys_down: &Vec<HostKey>)
    ensures
        final(events)@ == old(events)@ + modifier_events(*old(mods), keys_down@),
        *final(mods) == next_modifiers(keys_down@),
{
    let ctrl = contains_key(keys_down, HostKey::RightControl) || contains_key(
        keys_down,
        HostKey::LeftControl,
    );
    if mods.ctrl != ctrl {
        events.push(GuiEvent::Key { key: GuiKey::ModCtrl, down: ctrl });
    }
    mods.ctrl = ctrl;
    let shift = contains_key(keys_down, HostKey::RightShift) || contains_key(
        keys_down,
        HostKey::LeftShift,
    );
    if mods.shift != shift {
        events.push(GuiEvent::Key { key: GuiKey::ModShift, down: shift });
    }
    mods.shift = shift;
    let alt = contains_key(keys_down, HostKey::RightAlt) || contains_key(
        keys_down,
        HostKey::LeftAlt,
    );
    if mods.alt != alt {
        events.push(GuiEvent::Key { key: GuiKey::ModAlt, down: alt });
    }
    mods.alt = alt;
    let super_key = contains_key(keys_down, HostKey::RightSuper) || contains_key(
        keys_down,
        HostKey::LeftSuper,
    );
    if mods.super_key != super_key {
        events.push(GuiEvent::Key { key: GuiKey::ModSuper, down: super_key });
    }
    mods.super_key = super_key;
    proof {
        assert(events@ =~= old(events)@ + modifier_events(*old(mods), keys_down@));
    }
}

/// Drains the pressed-character queue into text events, in order.
fn push_text_events(events: &mut Vec<GuiEvent>, chars: &Vec<char>)
    ensures
        final(events)@ == old(events)@ + text_events(chars@),
{
    let mut i: usize = 0;
    while i < chars.len()
        invariant
            0 <= i <= chars@.len(),
            events@ == old(events)@ + text_events(chars@.take(i as int)),
        decreases chars@.len() - i,
    {
        proof {
            assert(chars@.take(i + 1).drop_last() =~= chars@.take(i as int));
            assert(chars@.take(i + 1).last() == chars@[i as int]);
        }
        events.push(GuiEvent::Text { ch: chars[i] });
        proof {
            assert(events@ =~= old(events)@ + text_events(chars@.take(i + 1)));
        }
        i += 1;
    }
    proof {
        assert(chars@.take(chars@.len() as int) =~= chars@);
    }
}

/// Appends one sweep over the gamepad button table.
fn sweep_buttons(
    events: &mut Vec<GuiEvent>,
    table: &Vec<(HostGamepadButton, GuiKey)>,
    pressed: &Vec<HostGamepadButton>,
    released: &Vec<HostGamepadButton>,
)
    ensures
        final(events)@ == old(events)@ + button_sweep(table@, pressed@, released@),
{
    let mut i: usize = 0;
    while i < table.len()
        invariant
            0 <= i <= table@.len(),
            events@ == old(events)@ + button_sweep(table@.take(i as int), pressed@, released@),
        decreases table@.len() - i,
    {
        let (b, gk) = table[i];
        proof {
            assert(table@.take(i + 1).drop_last() =~= table@.take(i as int));
            assert(table@.take(i + 1).last() == table@[i as int]);
        }
        if contains_button(pressed, b) {
            events.push(GuiEvent::Key { key: gk, down: true });
        } else if contains_button(released, b) {
            events.push(GuiEvent::Key { key: gk, down: false });
        }
        proof {
            assert(events@ =~= old(events)@ + button_sweep(table@.take(i + 1), pressed@, released@));
        }
        i += 1;
    }
    proof {
        assert(table@.take(table@.len() as int) =~= table@);
    }
}

/// Reads one axis from the snapshot: first reported value, zero when
/// absent.
fn axis_value(values: &Vec<(HostGamepadAxis, i32)>, axis: HostGamepadAxis) -> (v: i32)
    requires
        forall|i: int|
            0 <= i < values@.len() ==> -AXIS_RANGE_MILLI <= (#[trigger] values@[i]).1
                <= AXIS_RANGE_MILLI,
    ensures
        v == axis_lookup(values@, axis),
        -AXIS_RANGE_MILLI <= v <= AXIS_RANGE_MILLI,
{
    proof {
        assert(values@.skip(0) =~= values@);
    }
    let mut i: usize = 0;
    while i < values.len()
        invariant
            0 <= i <= values@.len(),
            axis_lookup(values@, axis) == axis_lookup(values@.skip(i as int), axis),
            forall|j: int|
                0 <= j < values@.len() ==> -AXIS_RANGE_MILLI <= (#[trigger] values@[j]).1
                    <= AXIS_RANGE_MILLI,
        decreases values@.len() - i,
    {
        let (a, v) = values[i];
        proof {
            assert(values@.skip(i as int)[0] == values@[i as int]);
            assert(values@.skip(i as int).drop_first() =~= values@.skip(i + 1));
        }
        if a == axis {
            return v;
        }
        i += 1;
    }
    proof {
        assert(values@.skip(values@.len() as int) =~= Seq::<(HostGamepadAxis, i32)>::empty());
    }
    0
}

/// Appends the analog events of one sweep over the axis table.
fn push_axis_events(
    events: &mut Vec<GuiEvent>,
    table: &Vec<(HostGamepadAxis, GuiKey, GuiKey)>,
    values: &Vec<(HostGamepadAxis, i32)>,
)
    requires
        forall|i: int|
            0 <= i < values@.len() ==> -AXIS_RANGE_MILLI <= (#[trigger] values@[i]).1
                <= AXIS_RANGE_MILLI,
    ensures
        final(events)@ == old(events)@ + axis_events(table@, values@),
{
    let mut i: usize = 0;
    while i < table.len()
        invariant
            0 <= i <= table@.len(),
            events@ == old(events)@ + axis_events(table@.take(i as int), values@),
            forall|j: int|
                0 <= j < values@.len() ==> -AXIS_RANGE_MILLI <= (#[trigger] values@[j]).1
                    <= AXIS_RANGE_MILLI,
        decreases table@.len() - i,
    {
        let (axis, pos, neg) = table[i];
        proof {
            assert(table@.take(i + 1).drop_last() =~= table@.take(i as int));
            assert(table@.take(i + 1).last() == table@[i as int]);
        }
        let v = axis_value(values, axis);
        events.push(
            GuiEvent::KeyAnalog {
                key: neg,
                active: v < -DEADZONE_MILLI,
                value: if v < -DEADZONE_MILLI {
                    -v
                } else {
                    0
                },
            },
        );
        events.push(
            GuiEvent::KeyAnalog {
                key: pos,
                active: v > DEADZONE_MILLI,
                value: if v > DEADZONE_MILLI {
                    v
                } else {
                    0
                },
            },
        );
        proof {
            assert(events@ =~= old(events)@ + axis_events(table@.take(i + 1), values@));
        }
        i += 1;
    }
    proof {
        assert(table@.take(table@.len() as int) =~= table@);
    }
}

/// Translates one frame of host input into the engine's ordered event
/// sequence and advances the modifier cache.
pub fn translate_input(
    mods: &mut ModifierState,
    ktable: &Vec<(HostKey, GuiKey)>,
    btable: &Vec<(HostGamepadButton, GuiKey)>,
    atable: &Vec<(HostGamepadAxis, GuiKey, GuiKey)>,
    snap: &InputSnapshot,
    flags: InputFlags,
) -> (events: Vec<GuiEvent>)
    requires
        snapshot_wf(snap@),
    ensures
        events@ == translate_spec(*old(mods), ktable@, btable@, atable@, snap@, flags),
        *final(mods) == next_modifiers(snap@.keys_down),
{
    let mut events: Vec<GuiEvent> = Vec::new();
    sweep_keys(&mut events, ktable, &snap.keys_pressed, true);
    sweep_keys(&mut events, ktable, &snap.keys_released, false);
    update_modifiers(mods, &mut events, &snap.keys_down);
    if flags.want_capture_keyboard {
        push_text_events(&mut events, &snap.chars_pressed);
    }
    if flags.gamepad_nav && snap.gamepad_available {
        sweep_buttons(&mut events, btable, &snap.buttons_pressed, &snap.buttons_released);
        proof {
            assert(snap.axis_values@ == snap@.axis_values);
        }
        push_axis_events(&mut events, atable, &snap.axis_values);
    }
    proof {
        assert(events@ =~= translate_spec(*old(mods), ktable@, btable@, atable@, snap@, flags));
    }
    events
}

/// The table's host keys are pairwise distinct.
pub open spec fn hosts_unique(t: Seq<(HostKey, GuiKey)>) -> bool {
    forall|i: int, j: int|
        0 <= i < j < t.len() ==> (#[trigger] t[i]).0 != (#[trigger] t[j]).0
}

/// A sweep over an empty transition set emits nothing.
pub proof fn lemma_key_sweep_empty(t: Seq<(HostKey, GuiKey)>, down: bool)
    ensures
        key_sweep(t, Seq::<HostKey>::empty(), down) == Seq::<GuiEvent>::empty(),
    decreases t.len(),
{
    if t.len() > 0 {
        lemma_key_sweep_empty(t.drop_last(), down);
        assert(!Seq::<HostKey>::empty().contains(t.last().0));
        assert(key_sweep(t, Seq::<HostKey>::empty(), down) =~= Seq::<GuiEvent>::empty());
    }
}

/// A sweep for one key no table row maps emits nothing.
pub proof fn lemma_key_sweep_no_host(t: Seq<(HostKey, GuiKey)>, k: HostKey, down: bool)
    requires
        forall|i: int| 0 <= i < t.len() ==> (#[trigger] t[i]).0 != k,
    ensures
        key_sweep(t, seq![k], down) == Seq::<GuiEvent>::empty(),
    decreases t.len(),
{
    if t.len() > 0 {
        assert(forall|i: int|
            0 <= i < t.drop_last().len() ==> (#[trigger] t.drop_last()[i]).0 != k);
        lemma_key_sweep_no_host(t.drop_last(), k, down);
        assert(t.last() == t[t.len() - 1]);
        assert(forall|i: int| 0 <= i < 1 ==> seq![k][i] == k);
        assert(!seq![k].contains(t.last().0));
        assert(key_sweep(t, seq![k], down) =~= Seq::<GuiEvent>::empty());
    }
}

/// A sweep for exactly one mapped key emits exactly its row's event.
pub proof fn lemma_key_sweep_single(t: Seq<(HostKey, GuiKey)>, pos: int, down: bool)
    requires
        0 <= pos < t.len(),
        hosts_unique(t),
    ensures
        key_sweep(t, seq![t[pos].0], down) == seq![key_ev(t[pos].1, down)],
    decreases t.len(),
{
    let k = t[pos].0;
    assert(seq![k][0] == k);
    assert(seq![k].contains(k));
    if pos == t.len() - 1 {
        assert(forall|i: int| 0 <= i < t.drop_last().len() ==> (#[trigger] t.drop_last()[i]).0 != k);
        lemma_key_sweep_no_host(t.drop_last(), k, down);
        assert(t.last() == t[pos]);
        assert(key_sweep(t, seq![k], down) =~= seq![key_ev(t[pos].1, down)]);
    } else {
        let tp = t.drop_last();
        assert(forall|i: int| 0 <= i < tp.len() ==> tp[i] == t[i]);
        assert(hosts_unique(tp));
        lemma_key_sweep_single(tp, pos, down);
        assert(t.last() == t[t.len() - 1]);
        assert(t[t.len() - 1].0 != k);
        assert(forall|i: int| 0 <= i < 1 ==> seq![k][i] == k);
        assert(!seq![k].contains(t.last().0));
        assert(key_sweep(t, seq![k], down) =~= key_sweep(tp, seq![k], down));
    }
}

/// A sweep never emits an event for an abstract key no table row targets.
pub proof fn lemma_key_sweep_count_foreign(
    t: Seq<(HostKey, GuiKey)>,
    keys: Seq<HostKey>,
    down: bool,
    g: GuiKey,
    d: bool,
)
    requires
        forall|i: int| 0 <= i < t.len() ==> (#[trigger] t[i]).1 != g,
    ensures
        count_events(key_sweep(t, keys, down), key_ev(g, d)) == 0,
    decreases t.len(),
{
    if t.len() == 0 {
    } else {
        assert(forall|i: int|
            0 <= i < t.drop_last().len() ==> (#[trigger] t.drop_last()[i]).1 != g);
        lemma_key_sweep_count_foreign(t.drop_last(), keys, down, g, d);
        assert(t.last() == t[t.len() - 1]);
        if keys.contains(t.last().0) {
            lemma_count_concat(
                key_sweep(t.drop_last(), keys, down),
                seq![key_ev(t.last().1, down)],
                key_ev(g, d),
            );
            lemma_count_singleton(key_ev(t.last().1, down), key_ev(g, d));
        } else {
            lemma_count_concat(
                key_sweep(t.drop_last(), keys, down),
                Seq::<GuiEvent>::empty(),
                key_ev(g, d),
            );
        }
    }
}

/// Text events never count as key events.
pub proof fn lemma_count_text_zero(cs: Seq<char>, g: GuiKey, d: bool)
    ensures
        count_events(text_events(cs), key_ev(g, d)) == 0,
    decreases cs.len(),
{
    if cs.len() > 0 {
        lemma_count_text_zero(cs.drop_last(), g, d);
        lemma_count_concat(text_events(cs.drop_last()), seq![text_ev(cs.last())], key_ev(g, d));
        lemma_count_singleton(text_ev(cs.last()), key_ev(g, d));
    }
}

/// Analog axis events never count as digital key events.
pub proof fn lemma_count_axis_zero(
    at: Seq<(HostGamepadAxis, GuiKey, GuiKey)>,
    values: Seq<(HostGamepadAxis, i32)>,
    g: GuiKey,
    d: bool,
)
    ensures
        count_events(axis_events(at, values), key_ev(g, d)) == 0,
    decreases at.len(),
{
    if at.len() > 0 {
        lemma_count_axis_zero(at.drop_last(), values, g, d);
        let v = axis_lookup(values, at.last().0);
        let pair = axis_pair_events(at.last().1, at.last().2, v);
        lemma_count_concat(axis_events(at.drop_last(), values), pair, key_ev(g, d));
        assert(pair =~= seq![pair[0]] + seq![pair[1]]);
        lemma_count_concat(seq![pair[0]], seq![pair[1]], key_ev(g, d));
        lemma_count_singleton(pair[0], key_ev(g, d));
        lemma_count_singleton(pair[1], key_ev(g, d));
    }
}

/// A gamepad button sweep with no transitions emits nothing.
pub proof fn lemma_button_sweep_empty(t: Seq<(HostGamepadButton, GuiKey)>)
    ensures
        button_sweep(t, Seq::<HostGamepadButton>::empty(), Seq::<HostGamepadButton>::empty())
            == Seq::<GuiEvent>::empty(),
    decreases t.len(),
{
    if t.len() > 0 {
        lemma_button_sweep_empty(t.drop_last());
        assert(!Seq::<HostGamepadButton>::empty().contains(t.last().0));
        assert(button_sweep(
            t,
            Seq::<HostGamepadButton>::empty(),
            Seq::<HostGamepadButton>::empty(),
        ) =~= Seq::<GuiEvent>::empty());
    }
}

/// A frame whose computed modifier states equal the cached ones emits no
/// modifier events.
pub proof fn lemma_modifier_no_change(st: ModifierState, keys_down: Seq<HostKey>)
    requires
        st == next_modifiers(keys_down),
    ensures
        modifier_events(st, keys_down) == Seq::<GuiEvent>::empty(),
{
    assert(modifier_events(st, keys_down) =~= Seq::<GuiEvent>::empty());
}

/// The modifier pass never emits an event for a key other than the four
/// logical modifier identifiers.
pub proof fn lemma_count_modifier_foreign(
    st: ModifierState,
    keys_down: Seq<HostKey>,
    g: GuiKey,
    d: bool,
)
    requires
        !crate::keymap::is_modifier_target(g),
    ensures
        count_events(modifier_events(st, keys_down), key_ev(g, d)) == 0,
{
    let e = key_ev(g, d);
    let m1 = mod_edge(GuiKey::ModCtrl, st.ctrl, ctrl_down(keys_down));
    let m2 = mod_edge(GuiKey::ModShift, st.shift, shift_down(keys_down));
    let m3 = mod_edge(GuiKey::ModAlt, st.alt, alt_down(keys_down));
    let m4 = mod_edge(GuiKey::ModSuper, st.super_key, super_down(keys_down));
    lemma_count_concat(m1 + m2 + m3, m4, e);
    lemma_count_concat(m1 + m2, m3, e);
    lemma_count_concat(m1, m2, e);
    lemma_count_singleton(key_ev(GuiKey::ModCtrl, ctrl_down(keys_down)), e);
    lemma_count_singleton(key_ev(GuiKey::ModShift, shift_down(keys_down)), e);
    lemma_count_singleton(key_ev(GuiKey::ModAlt, alt_down(keys_down)), e);
    lemma_count_singleton(key_ev(GuiKey::ModSuper, super_down(keys_down)), e);
}

/// The number of `probe` events a whole translated frame emits, split
/// over its five segments.
pub proof fn lemma_translate_count(
    st: ModifierState,
    ktable: Seq<(HostKey, GuiKey)>,
    btable: Seq<(HostGamepadButton, GuiKey)>,
    atable: Seq<(HostGamepadAxis, GuiKey, GuiKey)>,
    s: InputSnapshotView,
    flags: InputFlags,
    probe: GuiEvent,
)
    ensures
        count_events(translate_spec(st, ktable, btable, atable, s, flags), probe) == count_events(
            key_sweep(ktable, s.keys_pressed, true),
            probe,
        ) + count_events(key_sweep(ktable, s.keys_released, false), probe) + count_events(
            modifier_events(st, s.keys_down),
            probe,
        ) + count_events(
            if flags.want_capture_keyboard {
                text_events(s.chars_pressed)
            } else {
                Seq::<GuiEvent>::empty()
            },
            probe,
        ) + count_events(gamepad_events(btable, atable, s, flags.gamepad_nav), probe),
{
    let a = key_sweep(ktable, s.keys_pressed, true);
    let b = key_sweep(ktable, s.keys_released, false);
    let c = modifier_events(st, s.keys_down);
    let d = if flags.want_capture_keyboard {
        text_events(s.chars_pressed)
    } else {
        Seq::<GuiEvent>::empty()
    };
    let e = gamepad_events(btable, atable, s, flags.gamepad_nav);
    lemma_count_concat(a + b + c + d, e, probe);
    lemma_count_concat(a + b + c, d, probe);
    lemma_count_concat(a + b, c, probe);
    lemma_count_concat(a, b, probe);
}

/// The gamepad segment of a frame with no button transitions never counts
/// a digital key event.
pub proof fn lemma_count_gamepad_zero(
    btable: Seq<(HostGamepadButton, GuiKey)>,
    atable: Seq<(HostGamepadAxis, GuiKey, GuiKey)>,
    s: InputSnapshotView,
    nav: bool,
    g: GuiKey,
    d: bool,
)
    requires
        s.buttons_pressed == Seq::<HostGamepadButton>::empty(),
        s.buttons_released == Seq::<HostGamepadButton>::empty(),
    ensures
        count_events(gamepad_events(btable, atable, s, nav), key_ev(g, d)) == 0,
{
    if nav && s.gamepad_available {
        lemma_button_sweep_empty(btable);
        lemma_count_axis_zero(atable, s.axis_values, g, d);
        lemma_count_concat(
            button_sweep(btable, s.buttons_pressed, s.buttons_released),
            axis_events(atable, s.axis_values),
            key_ev(g, d),
        );
        assert(button_sweep(btable, s.buttons_pressed, s.buttons_released) =~= Seq::<
            GuiEvent,
        >::empty());
    }
}

/// A frame with no key transition emits no key event of any table row.
pub proof fn lemma_no_transition_frame(
    st: ModifierState,
    s: InputSnapshotView,
    flags: InputFlags,
    pos: int,
)
    requires
        0 <= pos < key_table().len(),
        s.keys_pressed == Seq::<HostKey>::empty(),
        s.keys_released == Seq::<HostKey>::empty(),
        s.buttons_pressed == Seq::<HostGamepadButton>::empty(),
        s.buttons_released == Seq::<HostGamepadButton>::empty(),
    ensures
        count_events(
            translate_spec(st, key_table(), button_table(), axis_table(), s, flags),
            key_ev(key_table()[pos].1, true),
        ) == 0,
        count_events(
            translate_spec(st, key_table(), button_table(), axis_table(), s, flags),
            key_ev(key_table()[pos].1, false),
        ) == 0,
{
    let g = key_table()[pos].1;
    crate::keymap::lemma_key_table_targets_not_modifier();
    lemma_key_sweep_empty(key_table(), true);
    lemma_key_sweep_empty(key_table(), false);
    lemma_both_counts(st, s, flags, g);
}

/// Helper: both transition polarities of one abstract key count zero on a
/// frame whose sweeps are empty.
proof fn lemma_both_counts(st: ModifierState, s: InputSnapshotView, flags: InputFlags, g: GuiKey)
    requires
        !crate::keymap::is_modifier_target(g),
        key_sweep(key_table(), s.keys_pressed, true) == Seq::<GuiEvent>::empty(),
        key_sweep(key_table(), s.keys_released, false) == Seq::<GuiEvent>::empty(),
        s.buttons_pressed == Seq::<HostGamepadButton>::empty(),
        s.buttons_released == Seq::<HostGamepadButton>::empty(),
    ensures
        count_events(
            translate_spec(st, key_table(), button_table(), axis_table(), s, flags),
            key_ev(g, true),
        ) == 0,
        count_events(
            translate_spec(st, key_table(), button_table(), axis_table(), s, flags),
            key_ev(g, false),
        ) == 0,
{
    lemma_one_count(st, s, flags, g, true);
    lemma_one_count(st, s, flags, g, false);
}

/// Helper: one transition polarity of one abstract key counts zero on a
/// frame whose sweeps are empty.
proof fn lemma_one_count(
    st: ModifierState,
    s: InputSnapshotView,
    flags: InputFlags,
    g: GuiKey,
    d: bool,
)
    requires
        !crate::keymap::is_modifier_target(g),
        key_sweep(key_table(), s.keys_pressed, true) == Seq::<GuiEvent>::empty(),
        key_sweep(key_table(), s.keys_released, false) == Seq::<GuiEvent>::empty(),
        s.buttons_pressed == Seq::<HostGamepadButton>::empty(),
        s.buttons_released == Seq::<HostGamepadButton>::empty(),
    ensures
        count_events(
            translate_spec(st, key_table(), button_table(), axis_table(), s, flags),
            key_ev(g, d),
        ) == 0,
{
    let probe = key_ev(g, d);
    lemma_translate_count(st, key_table(), button_table(), axis_table(), s, flags, probe);
    lemma_count_modifier_foreign(st, s.keys_down, g, d);
    if flags.want_capture_keyboard {
        lemma_count_text_zero(s.chars_pressed, g, d);
    }
    lemma_count_gamepad_zero(button_table(), axis_table(), s, flags.gamepad_nav, g, d);
}

/// For every host key in the key mapping table: pressing it (and nothing
/// else) yields exactly one key-down event for its mapped identifier and
/// no key-up; releasing it on the next frame yields exactly one key-up and
/// no key-down; and a frame with no transition yields neither (see
/// `lemma_no_transition_frame`).
pub proof fn lemma_press_release_two_frames(
    pos: int,
    st1: ModifierState,
    st2: ModifierState,
    press: InputSnapshotView,
    release: InputSnapshotView,
    flags1: InputFlags,
    flags2: InputFlags,
)
    requires
        0 <= pos < key_table().len(),
        press.keys_pressed == seq![key_table()[pos].0],
        press.keys_released == Seq::<HostKey>::empty(),
        press.buttons_pressed == Seq::<HostGamepadButton>::empty(),
        press.buttons_released == Seq::<HostGamepadButton>::empty(),
        release.keys_pressed == Seq::<HostKey>::empty(),
        release.keys_released == seq![key_table()[pos].0],
        release.buttons_pressed == Seq::<HostGamepadButton>::empty(),
        release.buttons_released == Seq::<HostGamepadButton>::empty(),
    ensures
        count_events(
            translate_spec(st1, key_table(), button_table(), axis_table(), press, flags1),
            key_ev(key_table()[pos].1, true),
        ) == 1,
        count_events(
            translate_spec(st1, key_table(), button_table(), axis_table(), press, flags1),
            key_ev(key_table()[pos].1, false),
        ) == 0,
        count_events(
            translate_spec(st2, key_table(), button_table(), axis_table(), release, flags2),
            key_ev(key_table()[pos].1, false),
        ) == 1,
        count_events(
            translate_spec(st2, key_table(), button_table(), axis_table(), release, flags2),
            key_ev(key_table()[pos].1, true),
        ) == 0,
{
    let g = key_table()[pos].1;
    crate::keymap::lemma_key_table_hosts_unique();
    crate::keymap::lemma_key_table_targets_not_modifier();
    assert(hosts_unique(key_table()));
    lemma_key_sweep_single(key_table(), pos, true);
    lemma_key_sweep_single(key_table(), pos, false);
    lemma_key_sweep_empty(key_table(), true);
    lemma_key_sweep_empty(key_table(), false);
    lemma_frame_counts(st1, press, flags1, g, true);
    lemma_frame_counts(st2, release, flags2, g, false);
}

/// Helper: counts for one frame whose sweeps emit exactly one `key_ev(g,
/// fired)` in the matching pass and nothing in the other.
proof fn lemma_frame_counts(
    st: ModifierState,
    s: InputSnapshotView,
    flags: InputFlags,
    g: GuiKey,
    fired: bool,
)
    requires
        !crate::keymap::is_modifier_target(g),
        key_sweep(key_table(), s.keys_pressed, true) == (if fired {
            seq![key_ev(g, true)]
        } else {
            Seq::<GuiEvent>::empty()
        }),
        key_sweep(key_table(), s.keys_released, false) == (if fired {
            Seq::<GuiEvent>::empty()
        } else {
            seq![key_ev(g, false)]
        }),
        s.buttons_pressed == Seq::<HostGamepadButton>::empty(),
        s.buttons_released == Seq::<HostGamepadButton>::empty(),
    ensures
        count_events(
            translate_spec(st, key_table(), button_table(), axis_table(), s, flags),
            key_ev(g, fired),
        ) == 1,
        count_events(
            translate_spec(st, key_table(), button_table(), axis_table(), s, flags),
            key_ev(g, !fired),
        ) == 0,
{
    lemma_frame_count_one(st, s, flags, g, fired, fired);
    lemma_frame_count_one(st, s, flags, g, fired, !fired);
}

/// Helper: the count of one probe polarity on such a frame.
proof fn lemma_frame_count_one(
    st: ModifierState,
    s: InputSnapshotView,
    flags: InputFlags,
    g: GuiKey,
    fired: bool,
    d: bool,
)
    requires
        !crate::keymap::is_modifier_target(g),
        key_sweep(key_table(), s.keys_pressed, true) == (if fired {
            seq![key_ev(g, true)]
        } else {
            Seq::<GuiEvent>::empty()
        }),
        key_sweep(key_table(), s.keys_released, false) == (if fired {
            Seq::<GuiEvent>::empty()
        } else {
            seq![key_ev(g, false)]
        }),
        s.buttons_pressed == Seq::<HostGamepadButton>::empty(),
        s.buttons_released == Seq::<HostGamepadButton>::empty(),
    ensures
        count_events(
            translate_spec(st, key_table(), button_table(), axis_table(), s, flags),
            key_ev(g, d),
        ) == if d == fired {
            1nat
        } else {
            0nat
        },
{
    let probe = key_ev(g, d);
    lemma_translate_count(st, key_table(), button_table(), axis_table(), s, flags, probe);
    lemma_count_singleton(key_ev(g, fired), probe);
    lemma_count_modifier_foreign(st, s.keys_down, g, d);
    if flags.want_capture_keyboard {
        lemma_count_text_zero(s.chars_pressed, g, d);
    }
    lemma_count_gamepad_zero(button_table(), axis_table(), s, flags.gamepad_nav, g, d);
}

/// Modifier events are edge-triggered: a frame that newly holds control
/// emits exactly one control-down event, and every following frame that
/// keeps the same logical modifier states emits none, however many such
/// frames follow.
pub proof fn lemma_control_edge_triggered(
    st: ModifierState,
    first: InputSnapshotView,
    held: InputSnapshotView,
    flags1: InputFlags,
    flags2: InputFlags,
)
    requires
        !st.ctrl,
        ctrl_down(first.keys_down),
        st.shift == shift_down(first.keys_down),
        st.alt == alt_down(first.keys_down),
        st.super_key == super_down(first.keys_down),
        next_modifiers(held.keys_down) == next_modifiers(first.keys_down),
        first.keys_pressed == Seq::<HostKey>::empty(),
        first.keys_released == Seq::<HostKey>::empty(),
        first.buttons_pressed == Seq::<HostGamepadButton>::empty(),
        first.buttons_released == Seq::<HostGamepadButton>::empty(),
        held.keys_pressed == Seq::<HostKey>::empty(),
        held.keys_released == Seq::<HostKey>::empty(),
        held.buttons_pressed == Seq::<HostGamepadButton>::empty(),
        held.buttons_released == Seq::<HostGamepadButton>::empty(),
    ensures
        count_events(
            translate_spec(st, key_table(), button_table(), axis_table(), first, flags1),
            key_ev(GuiKey::ModCtrl, true),
        ) == 1,
        count_events(
            translate_spec(st, key_table(), button_table(), axis_table(), first, flags1),
            key_ev(GuiKey::ModCtrl, false),
        ) == 0,
        count_events(
            translate_spec(
                next_modifiers(first.keys_down),
                key_table(),
                button_table(),
                axis_table(),
                held,
                flags2,
            ),
            key_ev(GuiKey::ModCtrl, true),
        ) == 0,
        count_events(
            translate_spec(
                next_modifiers(first.keys_down),
                key_table(),
                button_table(),
                axis_table(),
                held,
                flags2,
            ),
            key_ev(GuiKey::ModCtrl, false),
        ) == 0,
{
    let probe = key_ev(GuiKey::ModCtrl, true);
    crate::keymap::lemma_key_table_targets_not_modifier();
    lemma_key_sweep_empty(key_table(), true);
    lemma_key_sweep_empty(key_table(), false);
    lemma_mod_count(st, first, flags1, true);
    lemma_mod_count(st, first, flags1, false);
    assert(modifier_events(st, first.keys_down) =~= seq![key_ev(GuiKey::ModCtrl, true)]);
    lemma_count_singleton(key_ev(GuiKey::ModCtrl, true), probe);
    lemma_count_singleton(key_ev(GuiKey::ModCtrl, true), key_ev(GuiKey::ModCtrl, false));
    lemma_modifier_no_change(next_modifiers(first.keys_down), held.keys_down);
    lemma_mod_count(next_modifiers(first.keys_down), held, flags2, true);
    lemma_mod_count(next_modifiers(first.keys_down), held, flags2, false);
}

/// Helper: the count of a ModCtrl probe over a frame with empty sweeps is
/// the count of its modifier segment.
proof fn lemma_mod_count(st: ModifierState, s: InputSnapshotView, flags: InputFlags, d: bool)
    requires
        key_sweep(key_table(), s.keys_pressed, true) == Seq::<GuiEvent>::empty(),
        key_sweep(key_table(), s.keys_released, false) == Seq::<GuiEvent>::empty(),
        forall|i: int|
            0 <= i < key_table().len() ==> !crate::keymap::is_modifier_target(
                (#[trigger] key_table()[i]).1,
            ),
        s.buttons_pressed == Seq::<HostGamepadButton>::empty(),
        s.buttons_released == Seq::<HostGamepadButton>::empty(),
    ensures
        count_events(
            translate_spec(st, key_table(), button_table(), axis_table(), s, flags),
            key_ev(GuiKey::ModCtrl, d),
        ) == count_events(modifier_events(st, s.keys_down), key_ev(GuiKey::ModCtrl, d)),
{
    let probe = key_ev(GuiKey::ModCtrl, d);
    lemma_translate_count(st, key_table(), button_table(), axis_table(), s, flags, probe);
    if flags.want_capture_keyboard {
        lemma_count_text_zero(s.chars_pressed, GuiKey::ModCtrl, d);
    }
    lemma_count_gamepad_zero(button_table(), axis_table(), s, flags.gamepad_nav, GuiKey::ModCtrl, d);
}

/// The deadzone rule: a value inside the deadzone leaves both mapped
/// directions inactive with zero magnitude; a value beyond it activates
/// exactly the direction matching its sign, carrying the value's
/// magnitude, while the other direction stays inactive at zero.
pub proof fn lemma_axis_deadzone(pos: GuiKey, neg: GuiKey, v: i32)
    ensures
        -DEADZONE_MILLI <= v <= DEADZONE_MILLI ==> axis_pair_events(pos, neg, v) == seq![
            analog_ev(neg, false, 0),
            analog_ev(pos, false, 0),
        ],
        v > DEADZONE_MILLI ==> axis_pair_events(pos, neg, v) == seq![
            analog_ev(neg, false, 0),
            analog_ev(pos, true, v),
        ],
        v < -DEADZONE_MILLI ==> axis_pair_events(pos, neg, v) == seq![
            analog_ev(neg, true, (-v) as i32),
            analog_ev(pos, false, 0),
        ],
{
}

} // verus!
