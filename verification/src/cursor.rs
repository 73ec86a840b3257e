//! Mapping from the GUI engine's requested cursor shape to the host's native
//! cursor shape.
use vstd::prelude::*;

verus! {

/// A cursor shape the GUI engine may request.
#[derive(Clone, Copy, Debug, PartialEq, Eq, Structural)]
pub enum GuiCursor {
    Arrow,
    TextInput,
    ResizeAll,
    ResizeNS,
    ResizeEW,
    ResizeNESW,
    ResizeNWSE,
    Hand,
    NotAllowed,
}

/// A native cursor shape of the host runtime.
#[derive(Clone, Copy, Debug, PartialEq, Eq, Structural)]
pub enum HostCursor {
    Arrow,
    IBeam,
    ResizeAll,
    ResizeNS,
    ResizeEW,
    ResizeNESW,
    ResizeNWSE,
    PointingHand,
    NotAllowed,
}

/// The host cursor shape an engine cursor shape maps to.
pub open spec fn host_cursor_of(c: GuiCursor) -> HostCursor {
    match c {
        GuiCursor::Arrow => HostCursor::Arrow,
        GuiCursor::TextInput => HostCursor::IBeam,
        GuiCursor::ResizeAll => HostCursor::ResizeAll,
        GuiCursor::ResizeNS => HostCursor::ResizeNS,
        GuiCursor::ResizeEW => HostCursor::ResizeEW,
        GuiCursor::ResizeNESW => HostCursor::ResizeNESW,
        GuiCursor::ResizeNWSE => HostCursor::ResizeNWSE,
        GuiCursor::Hand => HostCursor::PointingHand,
        GuiCursor::NotAllowed => HostCursor::NotAllowed,
    }
}

/// Maps an engine cursor shape to the host's native cursor shape.
pub fn to_rl_cursor(cursor: GuiCursor) -> (r: HostCursor)
    ensures
        r == host_cursor_of(cursor),
{
    match cursor {
        GuiCursor::Arrow => HostCursor::Arrow,
        GuiCursor::TextInput => HostCursor::IBeam,
        GuiCursor::ResizeAll => HostCursor::ResizeAll,
        GuiCursor::ResizeNS => HostCursor::ResizeNS,
        GuiCursor::ResizeEW => HostCursor::ResizeEW,
        GuiCursor::ResizeNESW => HostCursor::ResizeNESW,
        GuiCursor::ResizeNWSE => HostCursor::ResizeNWSE,
        GuiCursor::Hand => HostCursor::PointingHand,
        GuiCursor::NotAllowed => HostCursor::NotAllowed,
    }
}

} // verus!
