//! Core of a bidirectional adapter between a host windowing/graphics runtime
//! and a retained-state immediate-mode GUI engine.
//!
//! Each frame the adapter translates twice: host input state (keyboard, mouse,
//! gamepad, display metrics) into the engine's abstract input events, and the
//! engine's finished draw-command list into the host's immediate-drawing
//! primitives.  This crate holds that translation logic over plain values;
//! the thin layer that polls the host and issues its native calls lives
//! outside and hands snapshots in, carrying the computed events and drawing
//! operations back out.
//!
//! Fractional host quantities (DPI scale factors, analog axis positions,
//! scroll deltas, logical clip coordinates) are carried in thousandths
//! (milli-units); frame delta time is carried in microseconds.

pub mod atlas;
pub mod clipboard;
pub mod cursor;
pub mod events;
pub mod frame;
pub mod input;
pub mod keymap;
pub mod lifecycle;
pub mod render;
pub mod settings;
