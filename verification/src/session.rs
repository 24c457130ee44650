//! The session: one engine, built for one ROM and four host capabilities,
//! and stepped one frame at a time.

use crate::audio::WebStereo;
use crate::config::{is_valid_rom, Config, InvalidRom};
use crate::joypad::{InputSource, WebJoypadEventHandler};
use crate::lcd::{DisplaySink, WebLcd};
use crate::save::{PersistenceStore, WebGameSave};
use vstd::prelude::*;

verus! {

/// The emulation engine, as far as a session needs it: it is built from a
/// configuration and the four adapters, which it owns and calls from then
/// on, and it runs one frame at a time.
pub trait Engine: Sized {
    /// The host display that the engine's frames go to.
    type Lcd: DisplaySink;

    /// The host audio playback that the engine's samples go to.
    type Stereo;

    /// The host input source that the engine's joypad is fed from.
    type Input: InputSource;

    /// The host store that the engine's save data is kept in.
    type Save: PersistenceStore;

    /// Builds the engine. It is never asked to run a ROM without a header.
    fn new(
        config: &Config,
        lcd: WebLcd<Self::Lcd>,
        stereo: WebStereo<Self::Stereo>,
        joypad_events_handler: WebJoypadEventHandler<Self::Input>,
        game_save: WebGameSave<Self::Save>,
    ) -> Self
        requires
            is_valid_rom(config.rom@),
    ;

    /// Runs the emulation for one displayed frame, calling the adapters as
    /// the frame needs them, and returns when the frame is complete.
    fn step_frame(&mut self);
}

/// One emulated ROM, running. The host builds it once and then calls
/// `step_frame` once per tick.
pub struct WebBoy<G: Engine> {
    gb: G,
}

impl<G: Engine> WebBoy<G> {
    /// The engine that this session runs.
    pub closed spec fn engine(&self) -> G {
        self.gb
    }

    /// Starts a session: wraps the four host capabilities in their adapters
    /// and builds the engine around them, configured for the host and for the
    /// hardware variant that the ROM's header selects. A ROM too short to
    /// hold the header byte is rejected before anything is built.
    pub fn new(
        rom: Vec<u8>,
        lcd: G::Lcd,
        stereo: G::Stereo,
        joypad_events_consumer: G::Input,
        game_save: G::Save,
    ) -> (created: Result<Self, InvalidRom>)
        ensures
            is_valid_rom(rom@) ==> (created matches Ok(session) && call_ensures(
                G::new,
                (
                    &Config::for_host(rom),
                    WebLcd::new(lcd),
                    WebStereo::new(stereo),
                    WebJoypadEventHandler::new(joypad_events_consumer),
                    WebGameSave::new(game_save),
                ),
                session.engine(),
            )),
            !is_valid_rom(rom@) ==> created == Err::<Self, InvalidRom>(
                InvalidRom { len: rom.len() },
            ),
    {
        match Config::new(rom) {
            Ok(config) => Ok(
                Self {
                    gb: G::new(
                        &config,
                        WebLcd::new(lcd),
                        WebStereo::new(stereo),
                        WebJoypadEventHandler::new(joypad_events_consumer),
                        WebGameSave::new(game_save),
                    ),
                },
            ),
            Err(error) => Err(error),
        }
    }

    /// Advances the emulation by one frame: the engine's `step_frame` is
    /// called on the session's engine, and the session's new engine is the
    /// one that this call leaves. The call returns when the frame is
    /// complete.
    pub fn step_frame(&mut self)
        ensures
            exists|engine: &mut G|
                *engine == old(self).engine() && *final(engine) == final(self).engine()
                    && #[trigger] call_ensures(G::step_frame, (engine,), ()),
    {
        self.gb.step_frame();
    }
}

} // verus!
