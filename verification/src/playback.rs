//! The playback controller: a single slot that holds the session of the
//! track being played, and the pause state of that session.

use vstd::prelude::*;

verus! {

/// Why a track could not be played.
#[derive(Clone, Copy, Debug, PartialEq, Eq, Structural)]
pub enum PlaybackError {
    /// No audio output device could be opened.
    DeviceUnavailable,
    /// The track's file could not be opened.
    FileUnreadable,
    /// The track's format cannot be decoded.
    UnsupportedFormat,
}

impl PlaybackError {
    /// The notice shown for this error.
    pub fn message(&self) -> (text: &'static str)
        ensures
            text@ == match *self {
                PlaybackError::DeviceUnavailable => "no audio output device"@,
                PlaybackError::FileUnreadable => "file cannot be opened"@,
                PlaybackError::UnsupportedFormat => "format not supported"@,
            },
    {
        match self {
            PlaybackError::DeviceUnavailable => "no audio output device",
            PlaybackError::FileUnreadable => "file cannot be opened",
            PlaybackError::UnsupportedFormat => "format not supported",
        }
    }
}

/// The session of one track: the output that plays it, and whether that
/// output is paused. `S` is whatever the shell opened to play the track.
#[derive(Debug)]
pub struct PlaybackSession<S> {
    pub output: S,
    pub paused: bool,
}

/// The slot after a play request whose output was opened, or failed to open:
/// a fresh, running session replaces whatever was there; a failure leaves
/// the slot as it was.
pub open spec fn after_play<S>(
    slot: Option<PlaybackSession<S>>,
    opened: Result<S, PlaybackError>,
) -> Option<PlaybackSession<S>> {
    match opened {
        Ok(output) => Some(PlaybackSession { output, paused: false }),
        Err(_) => slot,
    }
}

/// The slot after its session, if it holds one, was paused or resumed.
pub open spec fn with_paused<S>(slot: Option<PlaybackSession<S>>, paused: bool) -> Option<
    PlaybackSession<S>,
> {
    match slot {
        Some(session) => Some(PlaybackSession { output: session.output, paused }),
        None => None,
    }
}

/// The playback controller. It holds at most one session, the current one.
#[derive(Debug)]
pub struct PlaybackController<S> {
    current: Option<PlaybackSession<S>>,
}

impl<S> View for PlaybackController<S> {
    type V = Option<PlaybackSession<S>>;

    closed spec fn view(&self) -> Option<PlaybackSession<S>> {
        self.current
    }
}

impl<S> PlaybackController<S> {
    /// The controller before anything was played.
    pub fn new() -> (controller: Self)
        ensures
            controller@ is None,
    {
        PlaybackController { current: None }
    }

    /// Takes the outcome of opening an output for a track. An opened output
    /// becomes the current session, running; the session held before, if
    /// any, is let go. A failure is handed back and the slot is left alone.
    pub fn play(&mut self, opened: Result<S, PlaybackError>) -> (result: Result<
        &S,
        PlaybackError,
    >)
        ensures
            final(self)@ == after_play(old(self)@, opened),
            match opened {
                Ok(output) => result matches Ok(handle) && *handle == output,
                Err(error) => result matches Err(e) && e == error && *final(self) == *old(self),
            },
    {
        match opened {
            Ok(output) => {
                self.current = Some(PlaybackSession { output, paused: false });
                Ok(&self.current.as_ref().unwrap().output)
            },
            Err(error) => Err(error),
        }
    }

    /// Pauses the current session. Says whether there is one: with none,
    /// nothing changes.
    pub fn pause(&mut self) -> (active: bool)
        ensures
            active == (old(self)@ is Some),
            final(self)@ == with_paused(old(self)@, true),
            old(self)@ is None ==> *final(self) == *old(self),
    {
        match &mut self.current {
            Some(session) => {
                session.paused = true;
                true
            },
            None => false,
        }
    }

    /// Resumes the current session. Says whether there is one: with none,
    /// nothing changes.
    pub fn resume(&mut self) -> (active: bool)
        ensures
            active == (old(self)@ is Some),
            final(self)@ == with_paused(old(self)@, false),
            old(self)@ is None ==> *final(self) == *old(self),
    {
        match &mut self.current {
            Some(session) => {
                session.paused = false;
                true
            },
            None => false,
        }
    }

    /// The current session, if there is one.
    pub fn current(&self) -> (session: Option<&PlaybackSession<S>>)
        ensures
            match session {
                Some(s) => self@ == Some(*s),
                None => self@ is None,
            },
    {
        self.current.as_ref()
    }

    /// Whether a session is current and paused.
    pub fn is_paused(&self) -> (paused: bool)
        ensures
            paused == (self@ matches Some(session) && session.paused),
    {
        match &self.current {
            Some(session) => session.paused,
            None => false,
        }
    }
}

/// Of two plays in a row the second alone is current: the slot holds one
/// session, the second, running, and nothing of the first or of what was
/// there before it.
pub proof fn lemma_second_play_replaces_first<S>(
    slot: Option<PlaybackSession<S>>,
    first: S,
    second: S,
)
    ensures
        after_play(after_play(slot, Ok(first)), Ok(second)) == Some(
            PlaybackSession { output: second, paused: false },
        ),
        after_play(after_play(slot, Ok(first)), Ok(second)) == after_play(None, Ok(second)),
{
}

/// Pausing an empty slot changes nothing; pausing a session keeps its
/// output and leaves it paused, however often it is paused again, until it
/// is resumed.
pub proof fn lemma_paused_until_resumed<S>(slot: Option<PlaybackSession<S>>)
    ensures
        slot is None ==> with_paused(slot, true) == slot,
        slot matches Some(session) ==> with_paused(slot, true) == Some(
            PlaybackSession { output: session.output, paused: true },
        ),
        with_paused(with_paused(slot, true), true) == with_paused(slot, true),
        with_paused(with_paused(slot, true), false) == with_paused(slot, false),
        slot matches Some(session) ==> with_paused(slot, false) == Some(
            PlaybackSession { output: session.output, paused: false },
        ),
{
}

} // verus!
