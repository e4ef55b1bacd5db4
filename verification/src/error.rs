//! The library's errors.

use vstd::prelude::*;

verus! {

/// A failure of the audio side of a trigger.
#[derive(Clone, Copy, Debug, PartialEq, Eq, Structural)]
pub enum AdhanAudioError {
    /// No output device can be had: neither the named one nor a default.
    Device,
    /// The cue file holds no audio that can be decoded.
    Decode,
    /// The audio backend failed while playing.
    Playback,
}

/// Everything that can go wrong.
#[derive(Clone, Debug, PartialEq, Eq)]
pub enum AdhanError {
    /// Reading or writing a file failed.
    IO,
    /// The configuration could not be read or written as text.
    Serialisation,
    /// The configuration is unusable; the text says why.
    Configuration(String),
    /// The audio side of a trigger failed.
    Audio(AdhanAudioError),
    /// The cue directory is missing or holds no file.
    NoCueAvailable,
    /// The day's schedule could not be built.
    ScheduleBuild,
}

impl AdhanError {
    /// A trigger that fails with this error is logged and the monitor goes
    /// on; any other error ends the program.
    pub open spec fn is_recoverable(self) -> bool {
        self is Audio || self is NoCueAvailable
    }

    /// Whether the monitor goes on after this error.
    pub fn recoverable(&self) -> (r: bool)
        ensures
            r == self.is_recoverable(),
    {
        match self {
            AdhanError::Audio(_) => true,
            AdhanError::NoCueAvailable => true,
            _ => false,
        }
    }
}

} // verus!
