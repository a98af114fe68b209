use vstd::prelude::*;

verus! {

/// Milliseconds waited around each playback toggle so the player can react.
pub const SETTLE_DELAY_MS: u64 = 500;

/// A control signal sent to the media player.
#[derive(Clone, Copy, Debug, PartialEq, Eq, Structural)]
pub enum PlaybackSignal {
    Pause,
    Resume,
}

/// Playback stays paused while a guard is held; releasing it resumes playback
/// once, however often release is called.
#[derive(Debug)]
pub struct MediaGuard {
    released: bool,
}

impl MediaGuard {
    pub closed spec fn spec_released(&self) -> bool {
        self.released
    }

    /// Takes the guard: the caller sends the returned pause signal and then
    /// waits the settle delay.
    pub fn acquire() -> (r: (MediaGuard, PlaybackSignal))
        ensures
            !r.0.spec_released(),
            r.1 == PlaybackSignal::Pause,
    {
        (MediaGuard { released: false }, PlaybackSignal::Pause)
    }

    pub fn is_released(&self) -> (r: bool)
        ensures
            r == self.spec_released(),
    {
        self.released
    }

    /// Gives back the resume signal the first time only.
    pub fn release(&mut self) -> (r: Option<PlaybackSignal>)
        ensures
            final(self).spec_released(),
            r == (if old(self).spec_released() {
                None::<PlaybackSignal>
            } else {
                Some(PlaybackSignal::Resume)
            }),
    {
        if self.released {
            None
        } else {
            self.released = true;
            Some(PlaybackSignal::Resume)
        }
    }
}

} // verus!
