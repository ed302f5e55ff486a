use crate::message::Request;
use crate::speech_detector::SpeechDetectorEvent;
use vstd::prelude::*;

verus! {

/// The number of frames after which an utterance has lasted too long.
pub const MAX_FRAMES: usize = 1100;

/// The silence, in milliseconds, after which recognition is forced.
pub const DURATION_TIMEOUT_MS: usize = 20000;

/// What a buffer holds, as plain mathematical values.
pub struct BufferState {
    /// Frames written since the last reset.
    pub frames: nat,
    /// The current finding.
    pub event: SpeechDetectorEvent,
    /// Whether start-of-input was signalled for the active request.
    pub input_started: bool,
    /// The milliseconds that came with the last call for recognition: kept
    /// for diagnosis, read by nothing else.
    pub duration: nat,
}

/// The state of a buffer that has seen nothing yet.
pub open spec fn fresh() -> BufferState {
    BufferState {
        frames: 0,
        event: SpeechDetectorEvent::NoEvent,
        input_started: false,
        duration: 0,
    }
}

/// The text that stands for a recognition result.
pub open spec fn placeholder_text() -> Seq<char> {
    "Привет, мир!"@
}

/// The frame counter after one more frame. It stops at the largest number
/// the machine can hold.
pub open spec fn next_frames(frames: nat) -> nat {
    if frames < usize::MAX {
        frames + 1
    } else {
        frames
    }
}

/// The state after one frame was offered.
pub open spec fn write_step(s: BufferState) -> BufferState {
    if s.event == SpeechDetectorEvent::Recognizing {
        s
    } else if next_frames(s.frames) < MAX_FRAMES {
        BufferState { frames: next_frames(s.frames), ..s }
    } else {
        BufferState {
            frames: next_frames(s.frames),
            event: SpeechDetectorEvent::DurationTimeout,
            ..s
        }
    }
}

/// How many bytes of a frame of `len` bytes are taken in state `s`.
pub open spec fn write_accepts(s: BufferState, len: nat) -> nat {
    if s.event != SpeechDetectorEvent::Recognizing && next_frames(s.frames) < MAX_FRAMES {
        len
    } else {
        0
    }
}

/// The state after `n` frames were offered one after the other.
pub open spec fn after_writes(s: BufferState, n: nat) -> BufferState
    decreases n,
{
    if n == 0 {
        s
    } else {
        write_step(after_writes(s, (n - 1) as nat))
    }
}

/// The audio of one channel: it counts the frames of the active request and
/// holds what the analysis has found so far.
pub struct RecogBuffer {
    count: usize,
    speech_event: SpeechDetectorEvent,
    started: bool,
    duration: usize,
}

impl View for RecogBuffer {
    type V = BufferState;

    closed spec fn view(&self) -> BufferState {
        BufferState {
            frames: self.count as nat,
            event: self.speech_event,
            input_started: self.started,
            duration: self.duration as nat,
        }
    }
}

impl RecogBuffer {
    /// A fresh buffer on the heap, for a channel to keep for its whole life.
    pub fn leaked() -> (buffer: Box<Self>)
        ensures
            buffer@ == fresh(),
    {
        Box::new(
            Self {
                count: 0,
                speech_event: SpeechDetectorEvent::NoEvent,
                started: false,
                duration: 0,
            },
        )
    }

    /// Releases the buffer.
    pub fn destroy(this: Box<Self>) {
        let _ = this;
    }

    /// Makes the buffer ready for a new recognition request: whatever an
    /// earlier request left behind is gone.
    pub fn prepare(&mut self, request: &Request)
        ensures
            final(self)@ == fresh(),
    {
        let _ = request;
        self.count = 0;
        self.speech_event = SpeechDetectorEvent::NoEvent;
        self.started = false;
        self.duration = 0;
    }

    /// The current finding.
    pub fn detector_event(&self) -> (event: SpeechDetectorEvent)
        ensures
            event == self@.event,
    {
        self.speech_event
    }

    /// Starts the input timers. This buffer keeps none, so nothing changes.
    pub fn start_input_timers(&mut self)
        ensures
            final(self)@ == old(self)@,
    {
    }

    /// Whether start-of-input was already signalled for the active request.
    pub fn input_started(&self) -> (started: bool)
        ensures
            started == self@.input_started,
    {
        self.started
    }

    /// Records that start-of-input was signalled.
    pub fn start_input(&mut self)
        ensures
            final(self)@ == (BufferState { input_started: true, ..old(self)@ }),
    {
        self.started = true;
    }

    /// Declares the analysis complete, after `duration` milliseconds of
    /// silence or after a duration timeout. The duration is kept for
    /// diagnosis.
    pub fn recognize(&mut self, duration: usize)
        ensures
            final(self)@ == (BufferState {
                event: SpeechDetectorEvent::Recognizing,
                duration: duration as nat,
                ..old(self)@
            }),
    {
        self.duration = duration;
        self.speech_event = SpeechDetectorEvent::Recognizing;
    }

    /// The milliseconds that came with the last call of [`Self::recognize`]
    /// for this request, or 0 if there was none.
    pub fn recognize_duration(&self) -> (ms: usize)
        ensures
            ms == self@.duration,
    {
        self.duration
    }

    /// The silence, in milliseconds, after which recognition is forced.
    pub fn duration_timeout(&self) -> (ms: usize)
        ensures
            ms == DURATION_TIMEOUT_MS,
    {
        DURATION_TIMEOUT_MS
    }

    /// The recognized text, once the analysis is complete.
    pub fn load_result(&self) -> (result: Option<String>)
        ensures
            result is Some <==> self@.event == SpeechDetectorEvent::Recognizing,
            result matches Some(text) ==> text@ == placeholder_text(),
    {
        if self.speech_event == SpeechDetectorEvent::Recognizing {
            Some("Привет, мир!".to_owned())
        } else {
            None
        }
    }

    /// Drops what was gathered so that audio can be taken again. Whether
    /// start-of-input was signalled is kept: the request goes on.
    pub fn restart_writing(&mut self)
        ensures
            final(self)@ == (BufferState {
                frames: 0,
                event: SpeechDetectorEvent::NoEvent,
                ..old(self)@
            }),
    {
        self.count = 0;
        self.speech_event = SpeechDetectorEvent::NoEvent;
    }

    /// The finding that the buffer would hold after one more frame, without
    /// writing it.
    pub fn event_after_write(&self) -> (event: SpeechDetectorEvent)
        ensures
            event == write_step(self@).event,
    {
        if self.speech_event == SpeechDetectorEvent::Recognizing {
            SpeechDetectorEvent::Recognizing
        } else if self.count < MAX_FRAMES - 1 {
            self.speech_event
        } else {
            SpeechDetectorEvent::DurationTimeout
        }
    }

    /// Offers one frame and returns how many of its bytes were taken: all of
    /// them, or none.
    ///
    /// While a result waits to be fetched nothing is taken and nothing
    /// changes. Otherwise the frame is counted; from the frame that brings
    /// the count to [`MAX_FRAMES`] on, the finding is a duration timeout and
    /// nothing is taken.
    pub fn write(&mut self, buf: &[u8]) -> (accepted: usize)
        ensures
            final(self)@ == write_step(old(self)@),
            accepted == write_accepts(old(self)@, buf@.len()),
    {
        if self.speech_event == SpeechDetectorEvent::Recognizing {
            return 0;
        }
        if self.count < usize::MAX {
            self.count = self.count + 1;
        }
        if self.count < MAX_FRAMES {
            buf.len()
        } else {
            self.speech_event = SpeechDetectorEvent::DurationTimeout;
            0
        }
    }
}

/// The placeholder text is not empty.
pub proof fn lemma_placeholder_text_nonempty()
    ensures
        placeholder_text().len() > 0,
{
    reveal_strlit("Привет, мир!");
}

/// Below the threshold every frame is taken whole and the finding stays as
/// it was: if `n` more frames keep the count under [`MAX_FRAMES`] and no
/// result is waiting, then after them only the count has moved, by `n`, and
/// each of them was accepted in full.
pub proof fn lemma_writes_below_threshold(s: BufferState, n: nat, len: nat)
    requires
        s.event != SpeechDetectorEvent::Recognizing,
        s.frames + n < MAX_FRAMES,
    ensures
        after_writes(s, n) == (BufferState { frames: s.frames + n, ..s }),
        forall|k: nat| k < n ==> write_accepts(#[trigger] after_writes(s, k), len) == len,
    decreases n,
{
    if n > 0 {
        lemma_writes_below_threshold(s, (n - 1) as nat, len);
        assert forall|k: nat| k < n implies write_accepts(
            #[trigger] after_writes(s, k),
            len,
        ) == len by {
            if k < n - 1 {
            } else {
                assert(after_writes(s, k) == (BufferState { frames: s.frames + k, ..s }));
            }
        }
    }
}

/// From the threshold frame on nothing is taken and the finding is a
/// duration timeout: once `n >= 1` frames have brought the count to
/// [`MAX_FRAMES`] or beyond, with no result waiting at the start, the finding
/// after them is `DurationTimeout`, and the last of them, like every frame
/// that follows, is rejected.
pub proof fn lemma_writes_from_threshold(s: BufferState, n: nat, len: nat)
    requires
        s.event != SpeechDetectorEvent::Recognizing,
        s.frames <= usize::MAX,
        n >= 1,
        s.frames + n >= MAX_FRAMES,
    ensures
        after_writes(s, n).event == SpeechDetectorEvent::DurationTimeout,
        after_writes(s, n).input_started == s.input_started,
        after_writes(s, n).frames >= MAX_FRAMES,
        write_accepts(after_writes(s, (n - 1) as nat), len) == 0,
        write_accepts(after_writes(s, n), len) == 0,
    decreases n,
{
    lemma_writes_frames(s, (n - 1) as nat);
    lemma_writes_frames(s, n);
    if n > 1 && s.frames + (n - 1) >= MAX_FRAMES {
        lemma_writes_from_threshold(s, (n - 1) as nat, len);
    }
}

/// What `n` frames do to the count, and what they leave alone, when no
/// result is waiting at the start.
proof fn lemma_writes_frames(s: BufferState, n: nat)
    requires
        s.event != SpeechDetectorEvent::Recognizing,
        s.frames <= usize::MAX,
    ensures
        after_writes(s, n).frames == if s.frames + n <= usize::MAX {
            s.frames + n
        } else {
            usize::MAX as nat
        },
        after_writes(s, n).event != SpeechDetectorEvent::Recognizing,
        after_writes(s, n).input_started == s.input_started,
        s.frames + n < MAX_FRAMES ==> after_writes(s, n).event == s.event,
    decreases n,
{
    if n > 0 {
        lemma_writes_frames(s, (n - 1) as nat);
    }
}

} // verus!
