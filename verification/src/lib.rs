//! The boundary between a frame-stepped handheld emulation engine and the
//! host that embeds it.
//!
//! Once per host tick the session runs the engine for one frame. During that
//! frame the engine hands the boundary a finished frame buffer and a block
//! of audio samples, asks it for the button transitions that the host has
//! collected, and reads or writes battery-backed save data. Each module
//! holds one side of that traffic: the data that crosses, the function that
//! converts it, and the adapter that forwards it to a capability which the
//! host injects when the session is built.
//!
//! The host's capabilities and the engine are traits whose methods promise
//! nothing: what a host or an engine does lies outside this library. Where a
//! function's whole effect is a call on one of them, its contract names that
//! call. `call_ensures(D::draw_buffer, (sink, bytes), ())` holds of the
//! values with which a call of `draw_buffer` on `sink` has returned, so a
//! function that ensures it has handed `sink` exactly `bytes`, and a caller
//! who knows more about its own sink learns what that sink promises of them.

pub mod audio;
pub mod config;
pub mod joypad;
pub mod lcd;
pub mod save;
pub mod session;

pub use crate::audio::{AudioSink, WebStereo};
pub use crate::config::{
    select_mode, Config, InvalidRom, Mode, CGB_COMPATIBLE, CGB_FLAG_OFFSET, CGB_ONLY, MIN_ROM_LEN,
};
pub use crate::joypad::{
    joypad_updates, Button, InputSource, JoypadState, JoypadUpdate, WebButton, WebJoypadEvent,
    WebJoypadEventHandler,
};
pub use crate::lcd::{
    frame_bytes, pixels_height, pixels_width, DisplaySink, FrameBuffer, Pixel, WebLcd,
    ALPHA_OPAQUE, FRAME_BYTES, PIXELS_HEIGHT, PIXELS_WIDTH,
};
pub use crate::save::{PersistenceStore, WebGameSave};
pub use crate::session::{Engine, WebBoy};
