//! Fixed translation tables between host input codes and the GUI engine's
//! abstract key identifiers, and the cursor-shape mapping.
//!
//! The tables are pure data: an insertion-ordered sequence of pairs (or, for
//! gamepad axes, triples).  Host keys are pairwise distinct within a table;
//! two host keys may intentionally share an abstract target (the numeric row
//! and the numeric keypad are aliases).
use vstd::prelude::*;

verus! {

/// A host keyboard key that has an abstract-key analog.
#[derive(Clone, Copy, Debug, PartialEq, Eq, Structural)]
pub enum HostKey {
    Apostrophe,
    Comma,
    Minus,
    Period,
    Slash,
    Zero,
    One,
    Two,
    Three,
    Four,
    Five,
    Six,
    Seven,
    Eight,
    Nine,
    Semicolon,
    Equal,
    A,
    B,
    C,
    D,
    E,
    F,
    G,
    H,
    I,
    J,
    K,
    L,
    M,
    N,
    O,
    P,
    Q,
    R,
    S,
    T,
    U,
    V,
    W,
    X,
    Y,
    Z,
    Space,
    Escape,
    Enter,
    Tab,
    Backspace,
    Insert,
    Delete,
    Right,
    Left,
    Down,
    Up,
    PageUp,
    PageDown,
    Home,
    End,
    CapsLock,
    ScrollLock,
    NumLock,
    PrintScreen,
    Pause,
    F1,
    F2,
    F3,
    F4,
    F5,
    F6,
    F7,
    F8,
    F9,
    F10,
    F11,
    F12,
    LeftShift,
    LeftControl,
    LeftAlt,
    LeftSuper,
    RightShift,
    RightControl,
    RightAlt,
    RightSuper,
    KbMenu,
    LeftBracket,
    Backslash,
    RightBracket,
    Grave,
    Kp0,
    Kp1,
    Kp2,
    Kp3,
    Kp4,
    Kp5,
    Kp6,
    Kp7,
    Kp8,
    Kp9,
    KpDecimal,
    KpDivide,
    KpMultiply,
    KpSubtract,
    KpAdd,
    KpEnter,
    KpEqual,
}

/// The GUI engine's abstract key identifier.
#[derive(Clone, Copy, Debug, PartialEq, Eq, Structural)]
pub enum GuiKey {
    Apostrophe,
    Comma,
    Minus,
    Period,
    Slash,
    Keypad0,
    Keypad1,
    Keypad2,
    Keypad3,
    Keypad4,
    Keypad5,
    Keypad6,
    Keypad7,
    Keypad8,
    Keypad9,
    Semicolon,
    Equal,
    A,
    B,
    C,
    D,
    E,
    F,
    G,
    H,
    I,
    J,
    K,
    L,
    M,
    N,
    O,
    P,
    Q,
    R,
    S,
    T,
    U,
    V,
    W,
    X,
    Y,
    Z,
    Space,
    Escape,
    Enter,
    Tab,
    Backspace,
    Insert,
    Delete,
    RightArrow,
    LeftArrow,
    DownArrow,
    UpArrow,
    PageUp,
    PageDown,
    Home,
    End,
    CapsLock,
    ScrollLock,
    NumLock,
    PrintScreen,
    Pause,
    F1,
    F2,
    F3,
    F4,
    F5,
    F6,
    F7,
    F8,
    F9,
    F10,
    F11,
    F12,
    LeftShift,
    LeftCtrl,
    LeftAlt,
    LeftSuper,
    RightShift,
    RightCtrl,
    RightAlt,
    RightSuper,
    Menu,
    LeftBracket,
    Backslash,
    RightBracket,
    GraveAccent,
    KeypadDecimal,
    KeypadDivide,
    KeypadMultiply,
    KeypadSubtract,
    KeypadAdd,
    KeypadEnter,
    KeypadEqual,
    ModCtrl,
    ModShift,
    ModAlt,
    ModSuper,
    GamepadDpadUp,
    GamepadDpadRight,
    GamepadDpadDown,
    GamepadDpadLeft,
    GamepadFaceUp,
    GamepadFaceLeft,
    GamepadFaceDown,
    GamepadFaceRight,
    GamepadL1,
    GamepadL2,
    GamepadR1,
    GamepadR2,
    GamepadL3,
    GamepadR3,
    GamepadStart,
    GamepadBack,
    GamepadLStickLeft,
    GamepadLStickRight,
    GamepadLStickUp,
    GamepadLStickDown,
    GamepadRStickLeft,
    GamepadRStickRight,
    GamepadRStickUp,
    GamepadRStickDown,
}

/// A host gamepad button covered by the button table.
#[derive(Clone, Copy, Debug, PartialEq, Eq, Structural)]
pub enum HostGamepadButton {
    LeftFaceUp,
    LeftFaceRight,
    LeftFaceDown,
    LeftFaceLeft,
    RightFaceUp,
    RightFaceRight,
    RightFaceDown,
    RightFaceLeft,
    LeftTrigger1,
    LeftTrigger2,
    RightTrigger1,
    RightTrigger2,
    LeftThumb,
    RightThumb,
    MiddleLeft,
    MiddleRight,
}

/// A host gamepad analog axis covered by the axis table.
#[derive(Clone, Copy, Debug, PartialEq, Eq, Structural)]
pub enum HostGamepadAxis {
    LeftX,
    LeftY,
    RightX,
    RightY,
}

/// The abstract key a host keyboard key translates to.
pub open spec fn key_target(k: HostKey) -> GuiKey {
    match k {
        HostKey::Apostrophe => GuiKey::Apostrophe,
        HostKey::Comma => GuiKey::Comma,
        HostKey::Minus => GuiKey::Minus,
        HostKey::Period => GuiKey::Period,
        HostKey::Slash => GuiKey::Slash,
        HostKey::Zero => GuiKey::Keypad0,
        HostKey::One => GuiKey::Keypad1,
        HostKey::Two => GuiKey::Keypad2,
        HostKey::Three => GuiKey::Keypad3,
        HostKey::Four => GuiKey::Keypad4,
        HostKey::Five => GuiKey::Keypad5,
        HostKey::Six => GuiKey::Keypad6,
        HostKey::Seven => GuiKey::Keypad7,
        HostKey::Eight => GuiKey::Keypad8,
        HostKey::Nine => GuiKey::Keypad9,
        HostKey::Semicolon => GuiKey::Semicolon,
        HostKey::Equal => GuiKey::Equal,
        HostKey::A => GuiKey::A,
        HostKey::B => GuiKey::B,
        HostKey::C => GuiKey::C,
        HostKey::D => GuiKey::D,
        HostKey::E => GuiKey::E,
        HostKey::F => GuiKey::F,
        HostKey::G => GuiKey::G,
        HostKey::H => GuiKey::H,
        HostKey::I => GuiKey::I,
        HostKey::J => GuiKey::J,
        HostKey::K => GuiKey::K,
        HostKey::L => GuiKey::L,
        HostKey::M => GuiKey::M,
        HostKey::N => GuiKey::N,
        HostKey::O => GuiKey::O,
        HostKey::P => GuiKey::P,
        HostKey::Q => GuiKey::Q,
        HostKey::R => GuiKey::R,
        HostKey::S => GuiKey::S,
        HostKey::T => GuiKey::T,
        HostKey::U => GuiKey::U,
        HostKey::V => GuiKey::V,
        HostKey::W => GuiKey::W,
        HostKey::X => GuiKey::X,
        HostKey::Y => GuiKey::Y,
        HostKey::Z => GuiKey::Z,
        HostKey::Space => GuiKey::Space,
        HostKey::Escape => GuiKey::Escape,
        HostKey::Enter => GuiKey::Enter,
        HostKey::Tab => GuiKey::Tab,
        HostKey::Backspace => GuiKey::Backspace,
        HostKey::Insert => GuiKey::Insert,
        HostKey::Delete => GuiKey::Delete,
        HostKey::Right => GuiKey::RightArrow,
        HostKey::Left => GuiKey::LeftArrow,
        HostKey::Down => GuiKey::DownArrow,
        HostKey::Up => GuiKey::UpArrow,
        HostKey::PageUp => GuiKey::PageUp,
        HostKey::PageDown => GuiKey::PageDown,
        HostKey::Home => GuiKey::Home,
        HostKey::End => GuiKey::End,
        HostKey::CapsLock => GuiKey::CapsLock,
        HostKey::ScrollLock => GuiKey::ScrollLock,
        HostKey::NumLock => GuiKey::NumLock,
        HostKey::PrintScreen => GuiKey::PrintScreen,
        HostKey::Pause => GuiKey::Pause,
        HostKey::F1 => GuiKey::F1,
        HostKey::F2 => GuiKey::F2,
        HostKey::F3 => GuiKey::F3,
        HostKey::F4 => GuiKey::F4,
        HostKey::F5 => GuiKey::F5,
        HostKey::F6 => GuiKey::F6,
        HostKey::F7 => GuiKey::F7,
        HostKey::F8 => GuiKey::F8,
        HostKey::F9 => GuiKey::F9,
        HostKey::F10 => GuiKey::F10,
        HostKey::F11 => GuiKey::F11,
        HostKey::F12 => GuiKey::F12,
        HostKey::LeftShift => GuiKey::LeftShift,
        HostKey::LeftControl => GuiKey::LeftCtrl,
        HostKey::LeftAlt => GuiKey::LeftAlt,
        HostKey::LeftSuper => GuiKey::LeftSuper,
        HostKey::RightShift => GuiKey::RightShift,
        HostKey::RightControl => GuiKey::RightCtrl,
        HostKey::RightAlt => GuiKey::RightAlt,
        HostKey::RightSuper => GuiKey::RightSuper,
        HostKey::KbMenu => GuiKey::Menu,
        HostKey::LeftBracket => GuiKey::LeftBracket,
        HostKey::Backslash => GuiKey::Backslash,
        HostKey::RightBracket => GuiKey::RightBracket,
        HostKey::Grave => GuiKey::GraveAccent,
        HostKey::Kp0 => GuiKey::Keypad0,
        HostKey::Kp1 => GuiKey::Keypad1,
        HostKey::Kp2 => GuiKey::Keypad2,
        HostKey::Kp3 => GuiKey::Keypad3,
        HostKey::Kp4 => GuiKey::Keypad4,
        HostKey::Kp5 => GuiKey::Keypad5,
        HostKey::Kp6 => GuiKey::Keypad6,
        HostKey::Kp7 => GuiKey::Keypad7,
        HostKey::Kp8 => GuiKey::Keypad8,
        HostKey::Kp9 => GuiKey::Keypad9,
        HostKey::KpDecimal => GuiKey::KeypadDecimal,
        HostKey::KpDivide => GuiKey::KeypadDivide,
        HostKey::KpMultiply => GuiKey::KeypadMultiply,
        HostKey::KpSubtract => GuiKey::KeypadSubtract,
        HostKey::KpAdd => GuiKey::KeypadAdd,
        HostKey::KpEnter => GuiKey::KeypadEnter,
        HostKey::KpEqual => GuiKey::KeypadEqual,
    }
}

/// One block of the key mapping table; the full table is the ordered
/// concatenation of the blocks.
pub open spec fn key_table_a() -> Seq<(HostKey, GuiKey)> {
    seq![
        (HostKey::Apostrophe, GuiKey::Apostrophe),
        (HostKey::Comma, GuiKey::Comma),
        (HostKey::Minus, GuiKey::Minus),
        (HostKey::Period, GuiKey::Period),
        (HostKey::Slash, GuiKey::Slash),
        (HostKey::Zero, GuiKey::Keypad0),
        (HostKey::One, GuiKey::Keypad1),
        (HostKey::Two, GuiKey::Keypad2),
        (HostKey::Three, GuiKey::Keypad3),
        (HostKey::Four, GuiKey::Keypad4),
        (HostKey::Five, GuiKey::Keypad5),
        (HostKey::Six, GuiKey::Keypad6),
        (HostKey::Seven, GuiKey::Keypad7),
        (HostKey::Eight, GuiKey::Keypad8),
        (HostKey::Nine, GuiKey::Keypad9),
        (HostKey::Semicolon, GuiKey::Semicolon),
        (HostKey::Equal, GuiKey::Equal),
        (HostKey::A, GuiKey::A),
        (HostKey::B, GuiKey::B),
        (HostKey::C, GuiKey::C),
        (HostKey::D, GuiKey::D),
    ]
}

/// One block of the key mapping table; the full table is the ordered
/// concatenation of the blocks.
pub open spec fn key_table_b() -> Seq<(HostKey, GuiKey)> {
    seq![
        (HostKey::E, GuiKey::E),
        (HostKey::F, GuiKey::F),
        (HostKey::G, GuiKey::G),
        (HostKey::H, GuiKey::H),
        (HostKey::I, GuiKey::I),
        (HostKey::J, GuiKey::J),
        (HostKey::K, GuiKey::K),
        (HostKey::L, GuiKey::L),
        (HostKey::M, GuiKey::M),
        (HostKey::N, GuiKey::N),
        (HostKey::O, GuiKey::O),
        (HostKey::P, GuiKey::P),
        (HostKey::Q, GuiKey::Q),
        (HostKey::R, GuiKey::R),
        (HostKey::S, GuiKey::S),
        (HostKey::T, GuiKey::T),
        (HostKey::U, GuiKey::U),
        (HostKey::V, GuiKey::V),
        (HostKey::W, GuiKey::W),
        (HostKey::X, GuiKey::X),
        (HostKey::Y, GuiKey::Y),
    ]
}

/// One block of the key mapping table; the full table is the ordered
/// concatenation of the blocks.
pub open spec fn key_table_c() -> Seq<(HostKey, GuiKey)> {
    seq![
        (HostKey::Z, GuiKey::Z),
        (HostKey::Space, GuiKey::Space),
        (HostKey::Escape, GuiKey::Escape),
        (HostKey::Enter, GuiKey::Enter),
        (HostKey::Tab, GuiKey::Tab),
        (HostKey::Backspace, GuiKey::Backspace),
        (HostKey::Insert, GuiKey::Insert),
        (HostKey::Delete, GuiKey::Delete),
        (HostKey::Right, GuiKey::RightArrow),
        (HostKey::Left, GuiKey::LeftArrow),
        (HostKey::Down, GuiKey::DownArrow),
        (HostKey::Up, GuiKey::UpArrow),
        (HostKey::PageUp, GuiKey::PageUp),
        (HostKey::PageDown, GuiKey::PageDown),
        (HostKey::Home, GuiKey::Home),
        (HostKey::End, GuiKey::End),
        (HostKey::CapsLock, GuiKey::CapsLock),
        (HostKey::ScrollLock, GuiKey::ScrollLock),
        (HostKey::NumLock, GuiKey::NumLock),
        (HostKey::PrintScreen, GuiKey::PrintScreen),
        (HostKey::Pause, GuiKey::Pause),
    ]
}

/// One block of the key mapping table; the full table is the ordered
/// concatenation of the blocks.
pub open spec fn key_table_d() -> Seq<(HostKey, GuiKey)> {
    seq![
        (HostKey::F1, GuiKey::F1),
        (HostKey::F2, GuiKey::F2),
        (HostKey::F3, GuiKey::F3),
        (HostKey::F4, GuiKey::F4),
        (HostKey::F5, GuiKey::F5),
        (HostKey::F6, GuiKey::F6),
        (HostKey::F7, GuiKey::F7),
        (HostKey::F8, GuiKey::F8),
        (HostKey::F9, GuiKey::F9),
        (HostKey::F10, GuiKey::F10),
        (HostKey::F11, GuiKey::F11),
        (HostKey::F12, GuiKey::F12),
        (HostKey::LeftShift, GuiKey::LeftShift),
        (HostKey::LeftControl, GuiKey::LeftCtrl),
        (HostKey::LeftAlt, GuiKey::LeftAlt),
        (HostKey::LeftSuper, GuiKey::LeftSuper),
        (HostKey::RightShift, GuiKey::RightShift),
        (HostKey::RightControl, GuiKey::RightCtrl),
        (HostKey::RightAlt, GuiKey::RightAlt),
        (HostKey::RightSuper, GuiKey::RightSuper),
        (HostKey::KbMenu, GuiKey::Menu),
    ]
}

/// One block of the key mapping table; the full table is the ordered
/// concatenation of the blocks.
pub open spec fn key_table_e() -> Seq<(HostKey, GuiKey)> {
    seq![
        (HostKey::LeftBracket, GuiKey::LeftBracket),
        (HostKey::Backslash, GuiKey::Backslash),
        (HostKey::RightBracket, GuiKey::RightBracket),
        (HostKey::Grave, GuiKey::GraveAccent),
        (HostKey::Kp0, GuiKey::Keypad0),
        (HostKey::Kp1, GuiKey::Keypad1),
        (HostKey::Kp2, GuiKey::Keypad2),
        (HostKey::Kp3, GuiKey::Keypad3),
        (HostKey::Kp4, GuiKey::Keypad4),
        (HostKey::Kp5, GuiKey::Keypad5),
        (HostKey::Kp6, GuiKey::Keypad6),
        (HostKey::Kp7, GuiKey::Keypad7),
        (HostKey::Kp8, GuiKey::Keypad8),
        (HostKey::Kp9, GuiKey::Keypad9),
        (HostKey::KpDecimal, GuiKey::KeypadDecimal),
        (HostKey::KpDivide, GuiKey::KeypadDivide),
        (HostKey::KpMultiply, GuiKey::KeypadMultiply),
        (HostKey::KpSubtract, GuiKey::KeypadSubtract),
        (HostKey::KpAdd, GuiKey::KeypadAdd),
        (HostKey::KpEnter, GuiKey::KeypadEnter),
        (HostKey::KpEqual, GuiKey::KeypadEqual),
    ]
}

/// The key mapping table as a mathematical sequence, in its fixed order.
pub open spec fn key_table() -> Seq<(HostKey, GuiKey)> {
    key_table_a() + key_table_b() + key_table_c() + key_table_d() + key_table_e()
}

fn key_mapping_a() -> (t: Vec<(HostKey, GuiKey)>)
    ensures
        t@ == key_table_a(),
{
    let mut t: Vec<(HostKey, GuiKey)> = Vec::new();
    t.push((HostKey::Apostrophe, GuiKey::Apostrophe));
    t.push((HostKey::Comma, GuiKey::Comma));
    t.push((HostKey::Minus, GuiKey::Minus));
    t.push((HostKey::Period, GuiKey::Period));
    t.push((HostKey::Slash, GuiKey::Slash));
    t.push((HostKey::Zero, GuiKey::Keypad0));
    t.push((HostKey::One, GuiKey::Keypad1));
    t.push((HostKey::Two, GuiKey::Keypad2));
    t.push((HostKey::Three, GuiKey::Keypad3));
    t.push((HostKey::Four, GuiKey::Keypad4));
    t.push((HostKey::Five, GuiKey::Keypad5));
    t.push((HostKey::Six, GuiKey::Keypad6));
    t.push((HostKey::Seven, GuiKey::Keypad7));
    t.push((HostKey::Eight, GuiKey::Keypad8));
    t.push((HostKey::Nine, GuiKey::Keypad9));
    t.push((HostKey::Semicolon, GuiKey::Semicolon));
    t.push((HostKey::Equal, GuiKey::Equal));
    t.push((HostKey::A, GuiKey::A));
    t.push((HostKey::B, GuiKey::B));
    t.push((HostKey::C, GuiKey::C));
    t.push((HostKey::D, GuiKey::D));
    proof {
        assert(t@ =~= key_table_a());
    }
    t
}

fn key_mapping_b() -> (t: Vec<(HostKey, GuiKey)>)
    ensures
        t@ == key_table_b(),
{
    let mut t: Vec<(HostKey, GuiKey)> = Vec::new();
    t.push((HostKey::E, GuiKey::E));
    t.push((HostKey::F, GuiKey::F));
    t.push((HostKey::G, GuiKey::G));
    t.push((HostKey::H, GuiKey::H));
    t.push((HostKey::I, GuiKey::I));
    t.push((HostKey::J, GuiKey::J));
    t.push((HostKey::K, GuiKey::K));
    t.push((HostKey::L, GuiKey::L));
    t.push((HostKey::M, GuiKey::M));
    t.push((HostKey::N, GuiKey::N));
    t.push((HostKey::O, GuiKey::O));
    t.push((HostKey::P, GuiKey::P));
    t.push((HostKey::Q, GuiKey::Q));
    t.push((HostKey::R, GuiKey::R));
    t.push((HostKey::S, GuiKey::S));
    t.push((HostKey::T, GuiKey::T));
    t.push((HostKey::U, GuiKey::U));
    t.push((HostKey::V, GuiKey::V));
    t.push((HostKey::W, GuiKey::W));
    t.push((HostKey::X, GuiKey::X));
    t.push((HostKey::Y, GuiKey::Y));
    proof {
        assert(t@ =~= key_table_b());
    }
    t
}

fn key_mapping_c() -> (t: Vec<(HostKey, GuiKey)>)
    ensures
        t@ == key_table_c(),
{
    let mut t: Vec<(HostKey, GuiKey)> = Vec::new();
    t.push((HostKey::Z, GuiKey::Z));
    t.push((HostKey::Space, GuiKey::Space));
    t.push((HostKey::Escape, GuiKey::Escape));
    t.push((HostKey::Enter, GuiKey::Enter));
    t.push((HostKey::Tab, GuiKey::Tab));
    t.push((HostKey::Backspace, GuiKey::Backspace));
    t.push((HostKey::Insert, GuiKey::Insert));
    t.push((HostKey::Delete, GuiKey::Delete));
    t.push((HostKey::Right, GuiKey::RightArrow));
    t.push((HostKey::Left, GuiKey::LeftArrow));
    t.push((HostKey::Down, GuiKey::DownArrow));
    t.push((HostKey::Up, GuiKey::UpArrow));
    t.push((HostKey::PageUp, GuiKey::PageUp));
    t.push((HostKey::PageDown, GuiKey::PageDown));
    t.push((HostKey::Home, GuiKey::Home));
    t.push((HostKey::End, GuiKey::End));
    t.push((HostKey::CapsLock, GuiKey::CapsLock));
    t.push((HostKey::ScrollLock, GuiKey::ScrollLock));
    t.push((HostKey::NumLock, GuiKey::NumLock));
    t.push((HostKey::PrintScreen, GuiKey::PrintScreen));
    t.push((HostKey::Pause, GuiKey::Pause));
    proof {
        assert(t@ =~= key_table_c());
    }
    t
}

fn key_mapping_d() -> (t: Vec<(HostKey, GuiKey)>)
    ensures
        t@ == key_table_d(),
{
    let mut t: Vec<(HostKey, GuiKey)> = Vec::new();
    t.push((HostKey::F1, GuiKey::F1));
    t.push((HostKey::F2, GuiKey::F2));
    t.push((HostKey::F3, GuiKey::F3));
    t.push((HostKey::F4, GuiKey::F4));
    t.push((HostKey::F5, GuiKey::F5));
    t.push((HostKey::F6, GuiKey::F6));
    t.push((HostKey::F7, GuiKey::F7));
    t.push((HostKey::F8, GuiKey::F8));
    t.push((HostKey::F9, GuiKey::F9));
    t.push((HostKey::F10, GuiKey::F10));
    t.push((HostKey::F11, GuiKey::F11));
    t.push((HostKey::F12, GuiKey::F12));
    t.push((HostKey::LeftShift, GuiKey::LeftShift));
    t.push((HostKey::LeftControl, GuiKey::LeftCtrl));
    t.push((HostKey::LeftAlt, GuiKey::LeftAlt));
    t.push((HostKey::LeftSuper, GuiKey::LeftSuper));
    t.push((HostKey::RightShift, GuiKey::RightShift));
    t.push((HostKey::RightControl, GuiKey::RightCtrl));
    t.push((HostKey::RightAlt, GuiKey::RightAlt));
    t.push((HostKey::RightSuper, GuiKey::RightSuper));
    t.push((HostKey::KbMenu, GuiKey::Menu));
    proof {
        assert(t@ =~= key_table_d());
    }
    t
}

fn key_mapping_e() -> (t: Vec<(HostKey, GuiKey)>)
    ensures
        t@ == key_table_e(),
{
    let mut t: Vec<(HostKey, GuiKey)> = Vec::new();
    t.push((HostKey::LeftBracket, GuiKey::LeftBracket));
    t.push((HostKey::Backslash, GuiKey::Backslash));
    t.push((HostKey::RightBracket, GuiKey::RightBracket));
    t.push((HostKey::Grave, GuiKey::GraveAccent));
    t.push((HostKey::Kp0, GuiKey::Keypad0));
    t.push((HostKey::Kp1, GuiKey::Keypad1));
    t.push((HostKey::Kp2, GuiKey::Keypad2));
    t.push((HostKey::Kp3, GuiKey::Keypad3));
    t.push((HostKey::Kp4, GuiKey::Keypad4));
    t.push((HostKey::Kp5, GuiKey::Keypad5));
    t.push((HostKey::Kp6, GuiKey::Keypad6));
    t.push((HostKey::Kp7, GuiKey::Keypad7));
    t.push((HostKey::Kp8, GuiKey::Keypad8));
    t.push((HostKey::Kp9, GuiKey::Keypad9));
    t.push((HostKey::KpDecimal, GuiKey::KeypadDecimal));
    t.push((HostKey::KpDivide, GuiKey::KeypadDivide));
    t.push((HostKey::KpMultiply, GuiKey::KeypadMultiply));
    t.push((HostKey::KpSubtract, GuiKey::KeypadSubtract));
    t.push((HostKey::KpAdd, GuiKey::KeypadAdd));
    t.push((HostKey::KpEnter, GuiKey::KeypadEnter));
    t.push((HostKey::KpEqual, GuiKey::KeypadEqual));
    proof {
        assert(t@ =~= key_table_e());
    }
    t
}

/// The key mapping table as executable data.
pub fn key_mapping() -> (t: Vec<(HostKey, GuiKey)>)
    ensures
        t@ == key_table(),
{
    let mut t = key_mapping_a();
    let mut rest = key_mapping_b();
    t.append(&mut rest);
    let mut rest = key_mapping_c();
    t.append(&mut rest);
    let mut rest = key_mapping_d();
    t.append(&mut rest);
    let mut rest = key_mapping_e();
    t.append(&mut rest);
    t
}

/// The fixed position of each host key in the key mapping table.
pub open spec fn table_pos(k: HostKey) -> int {
    match k {
        HostKey::Apostrophe => 0,
        HostKey::Comma => 1,
        HostKey::Minus => 2,
        HostKey::Period => 3,
        HostKey::Slash => 4,
        HostKey::Zero => 5,
        HostKey::One => 6,
        HostKey::Two => 7,
        HostKey::Three => 8,
        HostKey::Four => 9,
        HostKey::Five => 10,
        HostKey::Six => 11,
        HostKey::Seven => 12,
        HostKey::Eight => 13,
        HostKey::Nine => 14,
        HostKey::Semicolon => 15,
        HostKey::Equal => 16,
        HostKey::A => 17,
        HostKey::B => 18,
        HostKey::C => 19,
        HostKey::D => 20,
        HostKey::E => 21,
        HostKey::F => 22,
        HostKey::G => 23,
        HostKey::H => 24,
        HostKey::I => 25,
        HostKey::J => 26,
        HostKey::K => 27,
        HostKey::L => 28,
        HostKey::M => 29,
        HostKey::N => 30,
        HostKey::O => 31,
        HostKey::P => 32,
        HostKey::Q => 33,
        HostKey::R => 34,
        HostKey::S => 35,
        HostKey::T => 36,
        HostKey::U => 37,
        HostKey::V => 38,
        HostKey::W => 39,
        HostKey::X => 40,
        HostKey::Y => 41,
        HostKey::Z => 42,
        HostKey::Space => 43,
        HostKey::Escape => 44,
        HostKey::Enter => 45,
        HostKey::Tab => 46,
        HostKey::Backspace => 47,
        HostKey::Insert => 48,
        HostKey::Delete => 49,
        HostKey::Right => 50,
        HostKey::Left => 51,
        HostKey::Down => 52,
        HostKey::Up => 53,
        HostKey::PageUp => 54,
        HostKey::PageDown => 55,
        HostKey::Home => 56,
        HostKey::End => 57,
        HostKey::CapsLock => 58,
        HostKey::ScrollLock => 59,
        HostKey::NumLock => 60,
        HostKey::PrintScreen => 61,
        HostKey::Pause => 62,
        HostKey::F1 => 63,
        HostKey::F2 => 64,
        HostKey::F3 => 65,
        HostKey::F4 => 66,
        HostKey::F5 => 67,
        HostKey::F6 => 68,
        HostKey::F7 => 69,
        HostKey::F8 => 70,
        HostKey::F9 => 71,
        HostKey::F10 => 72,
        HostKey::F11 => 73,
        HostKey::F12 => 74,
        HostKey::LeftShift => 75,
        HostKey::LeftControl => 76,
        HostKey::LeftAlt => 77,
        HostKey::LeftSuper => 78,
        HostKey::RightShift => 79,
        HostKey::RightControl => 80,
        HostKey::RightAlt => 81,
        HostKey::RightSuper => 82,
        HostKey::KbMenu => 83,
        HostKey::LeftBracket => 84,
        HostKey::Backslash => 85,
        HostKey::RightBracket => 86,
        HostKey::Grave => 87,
        HostKey::Kp0 => 88,
        HostKey::Kp1 => 89,
        HostKey::Kp2 => 90,
        HostKey::Kp3 => 91,
        HostKey::Kp4 => 92,
        HostKey::Kp5 => 93,
        HostKey::Kp6 => 94,
        HostKey::Kp7 => 95,
        HostKey::Kp8 => 96,
        HostKey::Kp9 => 97,
        HostKey::KpDecimal => 98,
        HostKey::KpDivide => 99,
        HostKey::KpMultiply => 100,
        HostKey::KpSubtract => 101,
        HostKey::KpAdd => 102,
        HostKey::KpEnter => 103,
        HostKey::KpEqual => 104,
    }
}

/// Every host key stands at its fixed position in the key table: the
/// table's host keys are pairwise distinct.
#[verifier::rlimit(100)]
pub proof fn lemma_key_table_positions()
    ensures
        key_table().len() == 105,
        forall|i: int| 0 <= i < 105 ==> table_pos((#[trigger] key_table()[i]).0) == i,
{
    assert(forall|i: int| 0 <= i < 21 ==> table_pos((#[trigger] key_table_a()[i]).0) == i);
    assert(forall|i: int| 0 <= i < 21 ==> table_pos((#[trigger] key_table_b()[i]).0) == i + 21);
    assert(forall|i: int| 0 <= i < 21 ==> table_pos((#[trigger] key_table_c()[i]).0) == i + 42);
    assert(forall|i: int| 0 <= i < 21 ==> table_pos((#[trigger] key_table_d()[i]).0) == i + 63);
    assert(forall|i: int| 0 <= i < 21 ==> table_pos((#[trigger] key_table_e()[i]).0) == i + 84);
    assert(key_table_a().len() == 21);
    assert(key_table_b().len() == 21);
    assert(key_table_c().len() == 21);
    assert(key_table_d().len() == 21);
    assert(key_table_e().len() == 21);
    assert(forall|i: int| 0 <= i < 105 ==> table_pos((#[trigger] key_table()[i]).0) == i);
}

/// Whether an abstract key is one of the four logical modifier
/// identifiers.
pub open spec fn is_modifier_target(g: GuiKey) -> bool {
    g == GuiKey::ModCtrl || g == GuiKey::ModShift || g == GuiKey::ModAlt || g == GuiKey::ModSuper
}

/// No row of the key table targets a logical modifier identifier: those
/// are emitted only by the edge-triggered modifier pass.
#[verifier::rlimit(100)]
pub proof fn lemma_key_table_targets_not_modifier()
    ensures
        forall|i: int|
            0 <= i < key_table().len() ==> !is_modifier_target((#[trigger] key_table()[i]).1),
{
    assert(forall|i: int| 0 <= i < 21 ==> !is_modifier_target((#[trigger] key_table_a()[i]).1));
    assert(forall|i: int| 0 <= i < 21 ==> !is_modifier_target((#[trigger] key_table_b()[i]).1));
    assert(forall|i: int| 0 <= i < 21 ==> !is_modifier_target((#[trigger] key_table_c()[i]).1));
    assert(forall|i: int| 0 <= i < 21 ==> !is_modifier_target((#[trigger] key_table_d()[i]).1));
    assert(forall|i: int| 0 <= i < 21 ==> !is_modifier_target((#[trigger] key_table_e()[i]).1));
    assert(key_table_a().len() == 21);
    assert(key_table_b().len() == 21);
    assert(key_table_c().len() == 21);
    assert(key_table_d().len() == 21);
    assert(key_table_e().len() == 21);
}

/// Two different rows of the key table never share a host key.
pub proof fn lemma_key_table_hosts_unique()
    ensures
        forall|i: int, j: int|
            0 <= i < j < key_table().len() ==> (#[trigger] key_table()[i]).0 != (
            #[trigger] key_table()[j]).0,
{
    lemma_key_table_positions();
}

/// The abstract key a host gamepad button translates to.
pub open spec fn button_target(b: HostGamepadButton) -> GuiKey {
    match b {
        HostGamepadButton::LeftFaceUp => GuiKey::GamepadDpadUp,
        HostGamepadButton::LeftFaceRight => GuiKey::GamepadDpadRight,
        HostGamepadButton::LeftFaceDown => GuiKey::GamepadDpadDown,
        HostGamepadButton::LeftFaceLeft => GuiKey::GamepadDpadLeft,
        HostGamepadButton::RightFaceUp => GuiKey::GamepadFaceUp,
        HostGamepadButton::RightFaceRight => GuiKey::GamepadFaceLeft,
        HostGamepadButton::RightFaceDown => GuiKey::GamepadFaceDown,
        HostGamepadButton::RightFaceLeft => GuiKey::GamepadFaceRight,
        HostGamepadButton::LeftTrigger1 => GuiKey::GamepadL1,
        HostGamepadButton::LeftTrigger2 => GuiKey::GamepadL2,
        HostGamepadButton::RightTrigger1 => GuiKey::GamepadR1,
        HostGamepadButton::RightTrigger2 => GuiKey::GamepadR2,
        HostGamepadButton::LeftThumb => GuiKey::GamepadL3,
        HostGamepadButton::RightThumb => GuiKey::GamepadR3,
        HostGamepadButton::MiddleLeft => GuiKey::GamepadStart,
        HostGamepadButton::MiddleRight => GuiKey::GamepadBack,
    }
}

/// The gamepad button table as a mathematical sequence, in its fixed order.
pub open spec fn button_table() -> Seq<(HostGamepadButton, GuiKey)> {
    seq![
        (HostGamepadButton::LeftFaceUp, GuiKey::GamepadDpadUp),
        (HostGamepadButton::LeftFaceRight, GuiKey::GamepadDpadRight),
        (HostGamepadButton::LeftFaceDown, GuiKey::GamepadDpadDown),
        (HostGamepadButton::LeftFaceLeft, GuiKey::GamepadDpadLeft),
        (HostGamepadButton::RightFaceUp, GuiKey::GamepadFaceUp),
        (HostGamepadButton::RightFaceRight, GuiKey::GamepadFaceLeft),
        (HostGamepadButton::RightFaceDown, GuiKey::GamepadFaceDown),
        (HostGamepadButton::RightFaceLeft, GuiKey::GamepadFaceRight),
        (HostGamepadButton::LeftTrigger1, GuiKey::GamepadL1),
        (HostGamepadButton::LeftTrigger2, GuiKey::GamepadL2),
        (HostGamepadButton::RightTrigger1, GuiKey::GamepadR1),
        (HostGamepadButton::RightTrigger2, GuiKey::GamepadR2),
        (HostGamepadButton::LeftThumb, GuiKey::GamepadL3),
        (HostGamepadButton::RightThumb, GuiKey::GamepadR3),
        (HostGamepadButton::MiddleLeft, GuiKey::GamepadStart),
        (HostGamepadButton::MiddleRight, GuiKey::GamepadBack),
    ]
}

/// The gamepad button table as executable data.
pub fn button_mapping() -> (t: Vec<(HostGamepadButton, GuiKey)>)
    ensures
        t@ == button_table(),
{
    let mut t: Vec<(HostGamepadButton, GuiKey)> = Vec::new();
    t.push((HostGamepadButton::LeftFaceUp, GuiKey::GamepadDpadUp));
    t.push((HostGamepadButton::LeftFaceRight, GuiKey::GamepadDpadRight));
    t.push((HostGamepadButton::LeftFaceDown, GuiKey::GamepadDpadDown));
    t.push((HostGamepadButton::LeftFaceLeft, GuiKey::GamepadDpadLeft));
    t.push((HostGamepadButton::RightFaceUp, GuiKey::GamepadFaceUp));
    t.push((HostGamepadButton::RightFaceRight, GuiKey::GamepadFaceLeft));
    t.push((HostGamepadButton::RightFaceDown, GuiKey::GamepadFaceDown));
    t.push((HostGamepadButton::RightFaceLeft, GuiKey::GamepadFaceRight));
    t.push((HostGamepadButton::LeftTrigger1, GuiKey::GamepadL1));
    t.push((HostGamepadButton::LeftTrigger2, GuiKey::GamepadL2));
    t.push((HostGamepadButton::RightTrigger1, GuiKey::GamepadR1));
    t.push((HostGamepadButton::RightTrigger2, GuiKey::GamepadR2));
    t.push((HostGamepadButton::LeftThumb, GuiKey::GamepadL3));
    t.push((HostGamepadButton::RightThumb, GuiKey::GamepadR3));
    t.push((HostGamepadButton::MiddleLeft, GuiKey::GamepadStart));
    t.push((HostGamepadButton::MiddleRight, GuiKey::GamepadBack));
    proof {
        assert(t@ =~= button_table());
    }
    t
}

/// The gamepad axis table as a mathematical sequence: each axis maps to a
/// positive-direction and a negative-direction abstract key.
pub open spec fn axis_table() -> Seq<(HostGamepadAxis, GuiKey, GuiKey)> {
    seq![
        (HostGamepadAxis::LeftX, GuiKey::GamepadLStickLeft, GuiKey::GamepadLStickRight),
        (HostGamepadAxis::LeftY, GuiKey::GamepadLStickUp, GuiKey::GamepadLStickDown),
        (HostGamepadAxis::RightX, GuiKey::GamepadRStickLeft, GuiKey::GamepadRStickRight),
        (HostGamepadAxis::RightY, GuiKey::GamepadRStickUp, GuiKey::GamepadRStickDown),
    ]
}

/// The gamepad axis table as executable data.
pub fn axis_mapping() -> (t: Vec<(HostGamepadAxis, GuiKey, GuiKey)>)
    ensures
        t@ == axis_table(),
{
    let mut t: Vec<(HostGamepadAxis, GuiKey, GuiKey)> = Vec::new();
    t.push((HostGamepadAxis::LeftX, GuiKey::GamepadLStickLeft, GuiKey::GamepadLStickRight));
    t.push((HostGamepadAxis::LeftY, GuiKey::GamepadLStickUp, GuiKey::GamepadLStickDown));
    t.push((HostGamepadAxis::RightX, GuiKey::GamepadRStickLeft, GuiKey::GamepadRStickRight));
    t.push((HostGamepadAxis::RightY, GuiKey::GamepadRStickUp, GuiKey::GamepadRStickDown));
    proof {
        assert(t@ =~= axis_table());
    }
    t
}

} // verus!
