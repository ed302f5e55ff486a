use crate::engine::{accepts, demo_recog_msg_signal, signalled, DemoRecogEngine};
use crate::message::{
    demo_recog_result_load, result_content_type, CompletionCause, Message, MessageState,
    RecognizerEvent, RecognizerMethod, Request, RequestState, StatusCode,
};
use crate::queue::{RecogMsg, RecogMsgType};
use crate::recog_buffer::{
    fresh, placeholder_text, write_step, BufferState, RecogBuffer, DURATION_TIMEOUT_MS,
};
use crate::speech_detector::SpeechDetectorEvent;
use vstd::prelude::*;
use vstd::utf8::encode_utf8;

verus! {

/// Set in a frame's type when the frame carries audio.
pub const MEDIA_FRAME_TYPE_AUDIO: u32 = 1;

/// Set in a frame's type when the frame carries video.
pub const MEDIA_FRAME_TYPE_VIDEO: u32 = 2;

/// Set in a frame's type when the frame carries a named event.
pub const MEDIA_FRAME_TYPE_EVENT: u32 = 4;

/// One unit of media, as it arrives once per tick.
pub struct Frame<'a> {
    /// What the frame carries: any of the `MEDIA_FRAME_TYPE_` bits.
    pub type_: u32,
    /// The audio of the frame.
    pub buffer: &'a [u8],
}

impl<'a> Frame<'a> {
    /// Whether the frame carries a named event. Such a frame is not audio to
    /// be analysed.
    pub open spec fn is_event(&self) -> bool {
        self.type_ & MEDIA_FRAME_TYPE_EVENT == MEDIA_FRAME_TYPE_EVENT
    }
}

/// Whether the host and the channel are connected.
#[derive(Debug, PartialEq, Eq, Structural, Clone, Copy)]
pub enum Connection {
    Closed,
    /// An open was asked for and waits for the worker.
    Opening,
    Open,
}

/// Where a channel stands in its life.
#[derive(Debug, PartialEq, Eq, Structural, Clone, Copy)]
pub enum Lifecycle {
    Closed,
    /// An open was asked for and waits for the worker.
    Opening,
    /// Open, with no request to work on.
    Idle,
    /// Recognition was asked for and audio is taken; no speech so far.
    AwaitingActivity,
    /// Speech has begun and audio is still taken.
    ActiveListening,
    /// A result is there, or the reason why none will come: the completion
    /// goes out with the next frame.
    Completing,
    /// A stop was asked for: its response goes out with the next frame.
    StopPending,
}

/// What a channel holds, as plain mathematical values.
pub struct ChannelState {
    /// The host's handle for the engine that the channel belongs to.
    pub custom_engine: usize,
    /// The host's handle for the channel.
    pub channel: usize,
    pub connection: Connection,
    /// The request that is being recognized, if any.
    pub recog_request: Option<Request>,
    /// The response to a stop that has not gone out yet, if any.
    pub stop_response: Option<MessageState>,
    pub buffer: BufferState,
}

/// What the worker has to do for the host after it has processed a message.
#[derive(Debug, PartialEq, Eq, Structural, Clone, Copy)]
pub enum WorkerAction {
    /// Answer that the channel has opened, with this status.
    OpenRespond { channel: usize, status: bool },
    /// Answer that the channel has closed.
    CloseRespond { channel: usize },
    /// Have the host make a response to `request`, and hand both to
    /// [`demo_recog_channel_request_dispatch`].
    Dispatch { channel: usize, request: Request },
}

/// What is to become of the response to a request.
#[derive(Debug, PartialEq, Eq)]
pub enum Dispatched {
    /// The response goes to the host.
    Respond(Message),
    /// The response goes to the host; if the host refuses it, it is handed
    /// over once more.
    RespondTwiceIfRefused(Message),
    /// Recognition was accepted. The response goes to the host, and only
    /// then is the request made the active one, with
    /// [`demo_recog_channel_recognize_sent`]. Between the two the host knows
    /// of a recognition in progress of which the channel holds no record.
    InProgress(Message),
    /// The response was kept. It goes out with the next frame.
    Held,
}

/// `Dispatched`, as plain mathematical values.
pub enum DispatchedState {
    Respond(MessageState),
    RespondTwiceIfRefused(MessageState),
    InProgress(MessageState),
    Held,
}

impl View for Dispatched {
    type V = DispatchedState;

    open spec fn view(&self) -> DispatchedState {
        match self {
            Dispatched::Respond(m) => DispatchedState::Respond(m@),
            Dispatched::RespondTwiceIfRefused(m) => DispatchedState::RespondTwiceIfRefused(m@),
            Dispatched::InProgress(m) => DispatchedState::InProgress(m@),
            Dispatched::Held => DispatchedState::Held,
        }
    }
}

/// How the processing of one finding ended.
#[derive(Debug, PartialEq, Eq)]
pub struct Processed {
    /// Whether the finding was acted on.
    pub processed: bool,
    /// The notification that goes to the host, if there is one.
    pub message: Option<Message>,
}

/// `Processed`, as plain mathematical values.
pub struct ProcessedState {
    pub processed: bool,
    pub message: Option<MessageState>,
}

impl View for Processed {
    type V = ProcessedState;

    open spec fn view(&self) -> ProcessedState {
        ProcessedState { processed: self.processed, message: view_of(self.message) }
    }
}

/// An optional message, as plain mathematical values.
pub open spec fn view_of(message: Option<Message>) -> Option<MessageState> {
    match message {
        Some(m) => Some(m@),
        None => None,
    }
}

/// A channel as it is made: closed, idle, with a fresh buffer.
pub open spec fn created(custom_engine: usize, channel: usize) -> ChannelState {
    ChannelState {
        custom_engine,
        channel,
        connection: Connection::Closed,
        recog_request: None,
        stop_response: None,
        buffer: fresh(),
    }
}

/// Where a channel in state `s` stands in its life.
pub open spec fn lifecycle(s: ChannelState) -> Lifecycle {
    match s.connection {
        Connection::Closed => Lifecycle::Closed,
        Connection::Opening => Lifecycle::Opening,
        Connection::Open => if s.stop_response is Some {
            Lifecycle::StopPending
        } else if s.recog_request is None {
            Lifecycle::Idle
        } else if s.buffer.event == SpeechDetectorEvent::Recognizing || s.buffer.event
            == SpeechDetectorEvent::Noinput {
            Lifecycle::Completing
        } else if s.buffer.input_started {
            Lifecycle::ActiveListening
        } else {
            Lifecycle::AwaitingActivity
        },
    }
}

/// The channel after an open was asked for; `status` says whether the worker
/// took the message.
pub open spec fn open_requested(s: ChannelState, status: bool) -> ChannelState {
    if status && s.connection == Connection::Closed {
        ChannelState { connection: Connection::Opening, ..s }
    } else {
        s
    }
}

/// The channel after the worker has processed a message of type `type_`.
pub open spec fn msg_processed(s: ChannelState, type_: RecogMsgType) -> ChannelState {
    match type_ {
        RecogMsgType::OpenChannel => ChannelState { connection: Connection::Open, ..s },
        RecogMsgType::CloseChannel => ChannelState { connection: Connection::Closed, ..s },
        RecogMsgType::RequestProcess { .. } => s,
    }
}

/// What the worker has to do after it has processed `msg`.
pub open spec fn worker_action(msg: RecogMsg) -> WorkerAction {
    match msg.type_ {
        RecogMsgType::OpenChannel => WorkerAction::OpenRespond {
            channel: msg.channel,
            status: true,
        },
        RecogMsgType::CloseChannel => WorkerAction::CloseRespond { channel: msg.channel },
        RecogMsgType::RequestProcess { request } => WorkerAction::Dispatch {
            channel: msg.channel,
            request,
        },
    }
}

/// The channel after a request to recognize has come.
pub open spec fn recognize_requested(s: ChannelState, has_codec: bool) -> ChannelState {
    if has_codec {
        ChannelState { buffer: fresh(), ..s }
    } else {
        s
    }
}

/// The response to a request to recognize.
pub open spec fn recognize_response(response: MessageState, has_codec: bool) -> MessageState {
    if has_codec {
        MessageState { request_state: Some(RequestState::InProgress), ..response }
    } else {
        MessageState { status_code: Some(StatusCode::MethodFailed), ..response }
    }
}

/// The channel after a request was dispatched.
pub open spec fn dispatched_channel(
    s: ChannelState,
    request: Request,
    response: MessageState,
    has_codec: bool,
) -> ChannelState {
    match request.method {
        RecognizerMethod::Recognize => recognize_requested(s, has_codec),
        RecognizerMethod::Stop => ChannelState { stop_response: Some(response), ..s },
        _ => s,
    }
}

/// What becomes of the response when a request is dispatched.
pub open spec fn dispatched_response(
    request: Request,
    response: MessageState,
    has_codec: bool,
) -> DispatchedState {
    match request.method {
        RecognizerMethod::Recognize => if has_codec {
            DispatchedState::InProgress(recognize_response(response, true))
        } else {
            DispatchedState::Respond(recognize_response(response, false))
        },
        RecognizerMethod::StartInputTimers => DispatchedState::RespondTwiceIfRefused(response),
        RecognizerMethod::Stop => DispatchedState::Held,
        _ => DispatchedState::Respond(response),
    }
}

/// The text that a buffer in state `b` has to give.
pub open spec fn loaded_result(b: BufferState) -> Option<Seq<char>> {
    if b.event == SpeechDetectorEvent::Recognizing {
        Some(placeholder_text())
    } else {
        None
    }
}

/// The event that the host has to make before the finding `recog_event` can
/// be processed in state `s`, if it has to make one.
pub open spec fn event_needed(s: ChannelState, recog_event: SpeechDetectorEvent) -> Option<
    RecognizerEvent,
> {
    if s.recog_request is None {
        None
    } else {
        match recog_event {
            SpeechDetectorEvent::Activity => if s.buffer.input_started {
                None
            } else {
                Some(RecognizerEvent::StartOfInput)
            },
            SpeechDetectorEvent::Noinput => Some(RecognizerEvent::RecognitionComplete),
            SpeechDetectorEvent::Recognizing => match loaded_result(s.buffer) {
                Some(text) if text.len() > 0 => Some(RecognizerEvent::RecognitionComplete),
                _ => None,
            },
            _ => None,
        }
    }
}

/// The event `message`, filled in as a start-of-input.
pub open spec fn start_of_input(message: MessageState) -> MessageState {
    MessageState { request_state: Some(RequestState::InProgress), ..message }
}

/// The event `message`, filled in as a completion for `cause`, with the
/// recognized text `text` as its body where recognition succeeded.
pub open spec fn completion(message: MessageState, cause: CompletionCause, text: Seq<char>)
    -> MessageState {
    match cause {
        CompletionCause::Success => MessageState {
            completion_cause: Some(cause),
            request_state: Some(RequestState::Complete),
            content_type: Some(result_content_type()),
            body: encode_utf8(text),
            ..message
        },
        CompletionCause::NoInputTimeout => MessageState {
            completion_cause: Some(cause),
            request_state: Some(RequestState::Complete),
            ..message
        },
    }
}

/// The channel after the finding `recog_event` was processed, where
/// `message` is the event that the host made for it, if it made one.
pub open spec fn processed_channel(
    s: ChannelState,
    recog_event: SpeechDetectorEvent,
    message: Option<MessageState>,
) -> ChannelState {
    if s.recog_request is None {
        s
    } else {
        match recog_event {
            SpeechDetectorEvent::NoEvent => s,
            SpeechDetectorEvent::Activity => if !s.buffer.input_started && message is Some {
                ChannelState { buffer: BufferState { input_started: true, ..s.buffer }, ..s }
            } else {
                s
            },
            SpeechDetectorEvent::Inactivity { duration } => ChannelState {
                buffer: BufferState {
                    event: SpeechDetectorEvent::Recognizing,
                    duration: duration as nat,
                    ..s.buffer
                },
                ..s
            },
            SpeechDetectorEvent::DurationTimeout => ChannelState {
                buffer: BufferState {
                    event: SpeechDetectorEvent::Recognizing,
                    duration: DURATION_TIMEOUT_MS as nat,
                    ..s.buffer
                },
                ..s
            },
            SpeechDetectorEvent::Noinput => if message is Some {
                ChannelState { recog_request: None, ..s }
            } else {
                s
            },
            SpeechDetectorEvent::Recognizing => match loaded_result(s.buffer) {
                Some(text) if text.len() > 0 => if message is Some {
                    ChannelState { recog_request: None, ..s }
                } else {
                    s
                },
                _ => ChannelState {
                    buffer: BufferState {
                        frames: 0,
                        event: SpeechDetectorEvent::NoEvent,
                        ..s.buffer
                    },
                    ..s
                },
            },
        }
    }
}

/// How the processing of the finding `recog_event` ends in state `s`, where
/// `message` is the event that the host made for it, if it made one.
pub open spec fn processed_outcome(
    s: ChannelState,
    recog_event: SpeechDetectorEvent,
    message: Option<MessageState>,
) -> ProcessedState {
    if s.recog_request is None {
        ProcessedState { processed: false, message: None }
    } else {
        match recog_event {
            SpeechDetectorEvent::NoEvent => ProcessedState { processed: false, message: None },
            SpeechDetectorEvent::Activity => if s.buffer.input_started {
                ProcessedState { processed: true, message: None }
            } else {
                match message {
                    Some(m) => ProcessedState {
                        processed: true,
                        message: Some(start_of_input(m)),
                    },
                    None => ProcessedState { processed: false, message: None },
                }
            },
            SpeechDetectorEvent::Inactivity { duration } => ProcessedState {
                processed: true,
                message: None,
            },
            SpeechDetectorEvent::DurationTimeout => ProcessedState {
                processed: true,
                message: None,
            },
            SpeechDetectorEvent::Noinput => match message {
                Some(m) => ProcessedState {
                    processed: true,
                    message: Some(completion(m, CompletionCause::NoInputTimeout, Seq::empty())),
                },
                None => ProcessedState { processed: false, message: None },
            },
            SpeechDetectorEvent::Recognizing => match loaded_result(s.buffer) {
                Some(text) if text.len() > 0 => match message {
                    Some(m) => ProcessedState {
                        processed: true,
                        message: Some(completion(m, CompletionCause::Success, text)),
                    },
                    None => ProcessedState { processed: false, message: None },
                },
                _ => ProcessedState { processed: false, message: None },
            },
        }
    }
}

/// Whether a frame is analysed in state `s`: a request is active, no stop
/// waits, and the frame is audio.
pub open spec fn analyses(s: ChannelState, event_frame: bool) -> bool {
    s.stop_response is None && s.recog_request is Some && !event_frame
}

/// The event that the host has to make before a frame is written in state
/// `s`, if it has to make one; `event_frame` says whether the frame carries a
/// named event.
pub open spec fn event_for_frame(s: ChannelState, event_frame: bool) -> Option<RecognizerEvent> {
    if analyses(s, event_frame) {
        let written = ChannelState { buffer: write_step(s.buffer), ..s };
        event_needed(written, written.buffer.event)
    } else {
        None
    }
}

/// The channel after a frame was written; `event_frame` says whether the
/// frame carries a named event, and `message` is the event that the host made
/// for the frame, if it made one.
pub open spec fn frame_written(s: ChannelState, event_frame: bool, message: Option<MessageState>)
    -> ChannelState {
    if s.stop_response is Some {
        ChannelState { stop_response: None, recog_request: None, ..s }
    } else if analyses(s, event_frame) {
        let written = ChannelState { buffer: write_step(s.buffer), ..s };
        processed_channel(written, written.buffer.event, message)
    } else {
        s
    }
}

/// The message that goes to the host when a frame is written in state `s`.
pub open spec fn frame_message(s: ChannelState, event_frame: bool, message: Option<MessageState>)
    -> Option<MessageState> {
    if s.stop_response is Some {
        s.stop_response
    } else if analyses(s, event_frame) {
        let written = ChannelState { buffer: write_step(s.buffer), ..s };
        processed_outcome(written, written.buffer.event, message).message
    } else {
        None
    }
}

/// One recognition channel: the session between the host and the engine for
/// one stream of audio.
///
/// The worker changes it when it processes an open, a close or a request; the
/// audio path changes it with every frame. Every function that changes it
/// takes it by `&mut`, so whoever shares a channel between the two has to put
/// it behind a lock, and neither side can see or change the active request
/// while the other is at work.
pub struct DemoRecogChannel {
    custom_engine: usize,
    channel: usize,
    connection: Connection,
    recog_request: Option<Request>,
    stop_response: Option<Message>,
    audio_buffer: Box<RecogBuffer>,
}

impl View for DemoRecogChannel {
    type V = ChannelState;

    closed spec fn view(&self) -> ChannelState {
        ChannelState {
            custom_engine: self.custom_engine,
            channel: self.channel,
            connection: self.connection,
            recog_request: self.recog_request,
            stop_response: view_of(self.stop_response),
            buffer: self.audio_buffer@,
        }
    }
}

impl DemoRecogChannel {
    /// The host's handle for the engine that the channel belongs to.
    pub fn custom_engine(&self) -> (handle: usize)
        ensures
            handle == self@.custom_engine,
    {
        self.custom_engine
    }

    /// The host's handle for the channel.
    pub fn channel(&self) -> (handle: usize)
        ensures
            handle == self@.channel,
    {
        self.channel
    }

    /// The request that is being recognized, if any.
    pub fn recog_request(&self) -> (request: Option<Request>)
        ensures
            request == self@.recog_request,
    {
        self.recog_request
    }

    /// Whether the response to a stop waits for the next frame.
    pub fn stop_pending(&self) -> (pending: bool)
        ensures
            pending == (self@.stop_response is Some),
    {
        self.stop_response.is_some()
    }

    /// The channel's audio buffer.
    pub fn audio_buffer(&self) -> (buffer: &RecogBuffer)
        ensures
            buffer@ == self@.buffer,
    {
        &*self.audio_buffer
    }

    /// Where the channel stands in its life.
    pub fn state(&self) -> (state: Lifecycle)
        ensures
            state == lifecycle(self@),
    {
        match self.connection {
            Connection::Closed => Lifecycle::Closed,
            Connection::Opening => Lifecycle::Opening,
            Connection::Open => {
                let event = self.audio_buffer.detector_event();
                if self.stop_response.is_some() {
                    Lifecycle::StopPending
                } else if self.recog_request.is_none() {
                    Lifecycle::Idle
                } else if event == SpeechDetectorEvent::Recognizing || event
                    == SpeechDetectorEvent::Noinput {
                    Lifecycle::Completing
                } else if self.audio_buffer.input_started() {
                    Lifecycle::ActiveListening
                } else {
                    Lifecycle::AwaitingActivity
                }
            },
        }
    }

    /// The event that the host has to make before `recog_event` is handed to
    /// [`demo_recog_recognition_process`], if it has to make one.
    pub fn event_needed(&self, recog_event: SpeechDetectorEvent) -> (event: Option<
        RecognizerEvent,
    >)
        ensures
            event == event_needed(self@, recog_event),
    {
        if self.recog_request.is_none() {
            return None;
        }
        match recog_event {
            SpeechDetectorEvent::Activity => {
                if self.audio_buffer.input_started() {
                    None
                } else {
                    Some(RecognizerEvent::StartOfInput)
                }
            },
            SpeechDetectorEvent::Noinput => Some(RecognizerEvent::RecognitionComplete),
            SpeechDetectorEvent::Recognizing => {
                match self.audio_buffer.load_result() {
                    Some(text) => {
                        if text.as_str().is_empty() {
                            None
                        } else {
                            Some(RecognizerEvent::RecognitionComplete)
                        }
                    },
                    None => None,
                }
            },
            _ => None,
        }
    }

    /// The event that the host has to make before `frame` is handed to
    /// [`stream_write`], if it has to make one.
    pub fn event_for_frame(&self, frame: &Frame) -> (event: Option<RecognizerEvent>)
        ensures
            event == event_for_frame(self@, frame.is_event()),
    {
        if self.stop_response.is_some() || self.recog_request.is_none() || frame.type_
            & MEDIA_FRAME_TYPE_EVENT == MEDIA_FRAME_TYPE_EVENT {
            return None;
        }
        let written = self.audio_buffer.event_after_write();
        match written {
            SpeechDetectorEvent::Activity => {
                if self.audio_buffer.input_started() {
                    None
                } else {
                    Some(RecognizerEvent::StartOfInput)
                }
            },
            SpeechDetectorEvent::Noinput => Some(RecognizerEvent::RecognitionComplete),
            SpeechDetectorEvent::Recognizing => {
                proof {
                    crate::recog_buffer::lemma_placeholder_text_nonempty();
                }
                Some(RecognizerEvent::RecognitionComplete)
            },
            _ => None,
        }
    }
}

/// Makes the channel `channel` of the engine `custom_engine`: closed, with no
/// request and no stop waiting, and with a buffer of its own.
pub fn engine_create_channel(custom_engine: usize, channel: usize) -> (demo_channel:
    DemoRecogChannel)
    ensures
        demo_channel@ == created(custom_engine, channel),
{
    DemoRecogChannel {
        custom_engine,
        channel,
        connection: Connection::Closed,
        recog_request: None,
        stop_response: None,
        audio_buffer: RecogBuffer::leaked(),
    }
}

/// Ends the channel and releases its buffer.
pub fn channel_destroy(channel: DemoRecogChannel) -> (destroyed: bool)
    ensures
        destroyed,
{
    RecogBuffer::destroy(channel.audio_buffer);
    true
}

/// Asks the worker to open the channel and says whether the worker took the
/// message. A closed channel is then opening; if the message was refused
/// nothing has changed.
pub fn channel_open(channel: &mut DemoRecogChannel, engine: &mut DemoRecogEngine) -> (status:
    bool)
    ensures
        status == accepts(old(engine)@),
        final(engine)@ == signalled(
            old(engine)@,
            (RecogMsg { type_: RecogMsgType::OpenChannel, channel: old(channel)@.channel }),
        ),
        final(channel)@ == open_requested(old(channel)@, status),
{
    let status = demo_recog_msg_signal(engine, RecogMsgType::OpenChannel, channel.channel);
    if status {
        match channel.connection {
            Connection::Closed => {
                channel.connection = Connection::Opening;
            },
            _ => {},
        }
    }
    status
}

/// Asks the worker to close the channel and says whether the worker took the
/// message. The channel closes when the worker processes it.
pub fn channel_close(channel: &DemoRecogChannel, engine: &mut DemoRecogEngine) -> (status: bool)
    ensures
        status == accepts(old(engine)@),
        final(engine)@ == signalled(
            old(engine)@,
            (RecogMsg { type_: RecogMsgType::CloseChannel, channel: channel@.channel }),
        ),
{
    demo_recog_msg_signal(engine, RecogMsgType::CloseChannel, channel.channel)
}

/// Asks the worker to work on `request` and says whether the worker took the
/// message.
pub fn channel_process_request(
    channel: &DemoRecogChannel,
    engine: &mut DemoRecogEngine,
    request: Request,
) -> (status: bool)
    ensures
        status == accepts(old(engine)@),
        final(engine)@ == signalled(
            old(engine)@,
            (RecogMsg {
                type_: RecogMsgType::RequestProcess { request },
                channel: channel@.channel,
            }),
        ),
{
    demo_recog_msg_signal(engine, RecogMsgType::RequestProcess { request }, channel.channel)
}

/// Processes one message on behalf of the worker, for the channel that the
/// message names, and says what the host is owed. An open opens the channel,
/// a close closes it; a request is left to
/// [`demo_recog_channel_request_dispatch`].
pub fn demo_recog_msg_process(channel: &mut DemoRecogChannel, msg: &RecogMsg) -> (action:
    WorkerAction)
    ensures
        action == worker_action(*msg),
        final(channel)@ == msg_processed(old(channel)@, msg.type_),
{
    match msg.type_ {
        RecogMsgType::OpenChannel => {
            channel.connection = Connection::Open;
            WorkerAction::OpenRespond { channel: msg.channel, status: true }
        },
        RecogMsgType::CloseChannel => {
            channel.connection = Connection::Closed;
            WorkerAction::CloseRespond { channel: msg.channel }
        },
        RecogMsgType::RequestProcess { request } => WorkerAction::Dispatch {
            channel: msg.channel,
            request,
        },
    }
}

/// Takes up a request to recognize. `has_codec` says whether the host has a
/// codec descriptor for the channel's stream.
///
/// Without a descriptor the request is refused: the response says that the
/// method has failed, and the channel is as it was. With one, the buffer is
/// made ready and the response says that recognition is in progress. The
/// request becomes the active one only when that response has gone out: see
/// [`demo_recog_channel_recognize_sent`].
pub fn demo_recog_channel_recognize(
    channel: &mut DemoRecogChannel,
    request: &Request,
    response: &mut Message,
    has_codec: bool,
) -> (accepted: bool)
    ensures
        accepted == has_codec,
        final(channel)@ == recognize_requested(old(channel)@, has_codec),
        final(response)@ == recognize_response(old(response)@, has_codec),
{
    if !has_codec {
        response.status_code = Some(StatusCode::MethodFailed);
        return false;
    }
    channel.audio_buffer.prepare(request);
    response.request_state = Some(RequestState::InProgress);
    true
}

/// Makes `request` the active one, once the response that says so has gone
/// to the host.
pub fn demo_recog_channel_recognize_sent(channel: &mut DemoRecogChannel, request: Request)
    ensures
        final(channel)@ == (ChannelState { recog_request: Some(request), ..old(channel)@ }),
{
    channel.recog_request = Some(request);
}

/// Takes up a request to stop. The response is kept and goes out with the
/// next frame, so that the host cannot see it before the frame that was in
/// work has settled. The active request stays until then.
pub fn demo_recog_channel_stop(
    channel: &mut DemoRecogChannel,
    request: &Request,
    response: Message,
) -> (processed: bool)
    ensures
        processed,
        final(channel)@ == (ChannelState { stop_response: Some(response@), ..old(channel)@ }),
{
    let _ = request;
    channel.stop_response = Some(response);
    true
}

/// Takes up a request to start the input timers, and hands back the
/// response, which goes to the host as it is.
pub fn demo_recog_channel_timers_start(
    channel: &mut DemoRecogChannel,
    request: &Request,
    response: Message,
) -> (sent: Message)
    ensures
        sent == response,
        final(channel)@ == old(channel)@,
{
    let _ = request;
    channel.audio_buffer.start_input_timers();
    response
}

/// Works on `request`, for which the host has made `response`, and says what
/// is to become of the response.
pub fn demo_recog_channel_request_dispatch(
    channel: &mut DemoRecogChannel,
    request: Request,
    response: Message,
    has_codec: bool,
) -> (dispatched: Dispatched)
    ensures
        dispatched@ == dispatched_response(request, response@, has_codec),
        final(channel)@ == dispatched_channel(old(channel)@, request, response@, has_codec),
{
    match request.method {
        RecognizerMethod::Recognize => {
            let mut response = response;
            if demo_recog_channel_recognize(channel, &request, &mut response, has_codec) {
                Dispatched::InProgress(response)
            } else {
                Dispatched::Respond(response)
            }
        },
        RecognizerMethod::StartInputTimers => {
            Dispatched::RespondTwiceIfRefused(
                demo_recog_channel_timers_start(channel, &request, response),
            )
        },
        RecognizerMethod::Stop => {
            demo_recog_channel_stop(channel, &request, response);
            Dispatched::Held
        },
        _ => Dispatched::Respond(response),
    }
}

/// Fills in the event that reports the start of input: it says that the
/// request is in progress. Without an event there is nothing to send.
pub fn demo_recog_start_of_input(message: Option<Message>) -> (sent: Option<Message>)
    ensures
        view_of(sent) == match message {
            Some(m) => Some(start_of_input(m@)),
            None => None,
        },
{
    match message {
        Some(m) => {
            let mut m = m;
            m.request_state = Some(RequestState::InProgress);
            Some(m)
        },
        None => None,
    }
}

/// Acts on one finding of the speech detector. `message` is the event that
/// the host has made for it, where [`DemoRecogChannel::event_needed`] asked
/// for one; `None` says that none was asked for or that the host could not
/// make it.
///
/// Without an active request nothing happens. With one:
/// - no finding: nothing happens;
/// - activity: the first time, start-of-input goes out and is recorded;
///   after that nothing more is sent for this request;
/// - inactivity and duration timeout: the analysis is declared complete;
/// - no input: a completion with the cause no-input-timeout and no body goes
///   out, and the request is no longer active;
/// - recognizing: if the buffer has text to give, a completion with the cause
///   success and the text as body goes out, and the request is no longer
///   active; if it has none, the buffer starts over and nothing is sent.
///
/// Where an event is needed and the host could not make one, the finding is
/// not acted on and nothing has changed.
pub fn demo_recog_recognition_process(
    channel: &mut DemoRecogChannel,
    recog_event: SpeechDetectorEvent,
    message: Option<Message>,
) -> (outcome: Processed)
    ensures
        outcome@ == processed_outcome(old(channel)@, recog_event, view_of(message)),
        final(channel)@ == processed_channel(old(channel)@, recog_event, view_of(message)),
{
    if channel.recog_request.is_none() {
        return Processed { processed: false, message: None };
    }
    let mut recognized = String::new();
    let cause = match recog_event {
        SpeechDetectorEvent::NoEvent => {
            return Processed { processed: false, message: None };
        },
        SpeechDetectorEvent::Activity => {
            if channel.audio_buffer.input_started() {
                return Processed { processed: true, message: None };
            }
            let sent = demo_recog_start_of_input(message);
            if sent.is_none() {
                return Processed { processed: false, message: None };
            }
            channel.audio_buffer.start_input();
            return Processed { processed: true, message: sent };
        },
        SpeechDetectorEvent::Inactivity { duration } => {
            channel.audio_buffer.recognize(duration);
            return Processed { processed: true, message: None };
        },
        SpeechDetectorEvent::DurationTimeout => {
            let duration = channel.audio_buffer.duration_timeout();
            channel.audio_buffer.recognize(duration);
            return Processed { processed: true, message: None };
        },
        SpeechDetectorEvent::Noinput => CompletionCause::NoInputTimeout,
        SpeechDetectorEvent::Recognizing => {
            match channel.audio_buffer.load_result() {
                Some(result) => {
                    recognized = result;
                },
                None => {},
            }
            if recognized.as_str().is_empty() {
                channel.audio_buffer.restart_writing();
                return Processed { processed: false, message: None };
            }
            CompletionCause::Success
        },
    };
    let mut event = match message {
        Some(m) => m,
        None => {
            return Processed { processed: false, message: None };
        },
    };
    event.completion_cause = Some(cause);
    event.request_state = Some(RequestState::Complete);
    match cause {
        CompletionCause::Success => {
            demo_recog_result_load(recognized.as_str(), &mut event);
        },
        CompletionCause::NoInputTimeout => {},
    }
    channel.recog_request = None;
    Processed { processed: true, message: Some(event) }
}

/// Takes one frame from the audio path and hands back the message that goes
/// to the host, if there is one. `message` is the event that the host has
/// made for the frame, where [`DemoRecogChannel::event_for_frame`] asked for
/// one.
///
/// If the response to a stop waits, it goes out now, and with it the request
/// is no longer active; the frame itself is not looked at. Otherwise, if a
/// request is active and the frame is audio, the frame is written to the
/// buffer and the finding that the buffer then holds is acted on, as
/// [`demo_recog_recognition_process`] says. Any other frame changes nothing.
pub fn stream_write(channel: &mut DemoRecogChannel, frame: &Frame, message: Option<Message>) -> (sent:
    Option<Message>)
    ensures
        view_of(sent) == frame_message(old(channel)@, frame.is_event(), view_of(message)),
        final(channel)@ == frame_written(old(channel)@, frame.is_event(), view_of(message)),
{
    if channel.stop_response.is_some() {
        let response = channel.stop_response.take();
        channel.recog_request = None;
        return response;
    }
    if channel.recog_request.is_some() {
        if frame.type_ & MEDIA_FRAME_TYPE_EVENT == MEDIA_FRAME_TYPE_EVENT {
        } else {
            channel.audio_buffer.write(frame.buffer);
            let event = channel.audio_buffer.detector_event();
            return demo_recog_recognition_process(channel, event, message).message;
        }
    }
    None
}

} // verus!
