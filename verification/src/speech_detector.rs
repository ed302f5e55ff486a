use vstd::prelude::*;

verus! {

/// What the analysis of the recent audio has found.
///
/// A buffer holds exactly one of these at a time. A new finding replaces the
/// old one: whoever reads it has to react before the next frame is written.
#[derive(Debug, PartialEq, Eq, Structural, Clone, Copy)]
pub enum SpeechDetectorEvent {
    /// Nothing has been found yet.
    NoEvent,
    /// Speech energy was detected.
    Activity,
    /// Silence has lasted for `duration` milliseconds.
    Inactivity { duration: usize },
    /// No speech arrived within the input timeout.
    Noinput,
    /// The utterance went on for longer than the maximum duration.
    DurationTimeout,
    /// The analysis is complete; a result may be there to fetch.
    Recognizing,
}

} // verus!
