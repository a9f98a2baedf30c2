//! Host side of a terminal-embedded guest game engine.
//!
//! A precompiled guest module runs inside the host process; the host owns the
//! shared linear memory, translates terminal key events into the guest's
//! integer event encoding, paces the guest's stepping, and adapts the guest's
//! fixed-resolution RGBA frames for terminal display.  Everything the guest
//! hands the host (offsets, lengths, log bytes, frame buffers) is untrusted
//! and validated here before it is acted on.

pub mod errors;
pub mod fps;
pub mod frame;
pub mod guest;
pub mod keys;
pub mod memory;
pub mod protocol;
pub mod state;
