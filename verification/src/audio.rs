//! Audio: the samples of one frame, passed to the host's audio sink as they
//! are.

use vstd::prelude::*;

verus! {

/// The host's audio playback. `T` is the sample format.
pub trait AudioSink<T> {
    /// Plays one block of samples. The block is the host's for the length of
    /// the call only.
    fn play(&self, samples: &[T]);
}

/// The audio adapter: it hands each block of samples that the engine
/// produces to the host's audio playback. It never looks at a sample, so it
/// is written for any sample format.
pub struct WebStereo<P> {
    stereo: P,
}

impl<P> WebStereo<P> {
    /// The adapter around `stereo`.
    pub closed spec fn spec_new(stereo: P) -> Self {
        Self { stereo }
    }

    /// The host playback that this adapter forwards to.
    pub closed spec fn sink(&self) -> P {
        self.stereo
    }

    /// Wraps the host's audio playback.
    #[verifier::when_used_as_spec(spec_new)]
    pub fn new(stereo: P) -> (adapter: Self)
        ensures
            adapter == Self::new(stereo),
            adapter.sink() == stereo,
    {
        Self { stereo }
    }

    /// Plays one block: the playback is handed `samples` as they are, in a
    /// single call. Nothing is resampled, mixed or kept.
    pub fn play<T>(&self, samples: &[T]) where P: AudioSink<T>
        ensures
            call_ensures(P::play, (&self.sink(), samples), ()),
    {
        self.stereo.play(samples);
    }
}

} // verus!
