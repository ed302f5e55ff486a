use crate::channel::{
    completion, dispatched_channel, dispatched_response, frame_message, frame_written, lifecycle,
    msg_processed, open_requested, processed_channel, processed_outcome, start_of_input,
    ChannelState, Connection, DispatchedState, Lifecycle,
};
use crate::message::{CompletionCause, MessageState, RecognizerMethod, Request};
use crate::queue::RecogMsgType;
use crate::recog_buffer::{lemma_placeholder_text_nonempty, placeholder_text};
use crate::speech_detector::SpeechDetectorEvent;
use vstd::prelude::*;

verus! {

/// What comes with one frame: whether it carries a named event, and the
/// event that the host made for it, if it made one.
pub struct FrameInput {
    pub event_frame: bool,
    pub message: Option<MessageState>,
}

/// The channel after the frames `inputs` were written one after the other.
pub open spec fn after_frames(s: ChannelState, inputs: Seq<FrameInput>) -> ChannelState
    decreases inputs.len(),
{
    if inputs.len() == 0 {
        s
    } else {
        frame_written(
            after_frames(s, inputs.drop_last()),
            inputs.last().event_frame,
            inputs.last().message,
        )
    }
}

/// What went to the host with each of the frames `inputs`.
pub open spec fn frame_messages(s: ChannelState, inputs: Seq<FrameInput>) -> Seq<
    Option<MessageState>,
>
    decreases inputs.len(),
{
    if inputs.len() == 0 {
        Seq::empty()
    } else {
        frame_messages(s, inputs.drop_last()).push(
            frame_message(
                after_frames(s, inputs.drop_last()),
                inputs.last().event_frame,
                inputs.last().message,
            ),
        )
    }
}

/// A channel with no request and no stop waiting takes no notice of frames:
/// nothing changes and nothing is sent.
pub proof fn lemma_idle_ignores_frames(s: ChannelState, inputs: Seq<FrameInput>)
    requires
        s.recog_request is None,
        s.stop_response is None,
    ensures
        after_frames(s, inputs) == s,
        frame_messages(s, inputs).len() == inputs.len(),
        forall|i: int| 0 <= i < inputs.len() ==> frame_messages(s, inputs)[i] is None,
    decreases inputs.len(),
{
    if inputs.len() > 0 {
        lemma_idle_ignores_frames(s, inputs.drop_last());
    }
}

/// Start-of-input goes out once per request. With a request active and no
/// start-of-input signalled yet, a first finding of activity sends the
/// start-of-input event that the host made. Whatever frames follow, a later
/// finding of activity sends nothing and changes nothing, whether or not the
/// host made an event for it.
pub proof fn lemma_start_of_input_once(
    s: ChannelState,
    first: MessageState,
    between: Seq<FrameInput>,
    second: Option<MessageState>,
)
    requires
        s.recog_request is Some,
        !s.buffer.input_started,
    ensures
        processed_outcome(s, SpeechDetectorEvent::Activity, Some(first)).message == Some(
            start_of_input(first),
        ),
        ({
            let started = processed_channel(s, SpeechDetectorEvent::Activity, Some(first));
            let later = after_frames(started, between);
            &&& processed_outcome(later, SpeechDetectorEvent::Activity, second).message is None
            &&& processed_channel(later, SpeechDetectorEvent::Activity, second) == later
        }),
{
    let started = processed_channel(s, SpeechDetectorEvent::Activity, Some(first));
    lemma_frames_keep_input_started(started, between);
}

/// Once start-of-input was signalled it stays signalled through any frames:
/// only a new request makes the buffer forget it.
pub proof fn lemma_frames_keep_input_started(s: ChannelState, inputs: Seq<FrameInput>)
    requires
        s.buffer.input_started,
    ensures
        after_frames(s, inputs).buffer.input_started,
    decreases inputs.len(),
{
    if inputs.len() > 0 {
        lemma_frames_keep_input_started(s, inputs.drop_last());
    }
}

/// A stop is acknowledged exactly once, with the first frame that follows.
/// Taking up the stop keeps its response and leaves the active request as it
/// was. The first frame after it, whatever it carries, sends exactly that
/// response and ends the request; every later frame sends nothing.
pub proof fn lemma_stop_acknowledged_once(
    s: ChannelState,
    request: Request,
    response: MessageState,
    has_codec: bool,
    inputs: Seq<FrameInput>,
)
    requires
        request.method == RecognizerMethod::Stop,
        inputs.len() >= 1,
    ensures
        dispatched_response(request, response, has_codec) == DispatchedState::Held,
        ({
            let stopped = dispatched_channel(s, request, response, has_codec);
            let sent = frame_messages(stopped, inputs);
            &&& stopped.recog_request == s.recog_request
            &&& stopped.stop_response == Some(response)
            &&& sent.len() == inputs.len()
            &&& sent[0] == Some(response)
            &&& forall|i: int| 1 <= i < inputs.len() ==> sent[i] is None
            &&& after_frames(stopped, inputs.take(1)).recog_request is None
            &&& after_frames(stopped, inputs).recog_request is None
            &&& after_frames(stopped, inputs).stop_response is None
        }),
    decreases inputs.len(),
{
    let stopped = dispatched_channel(s, request, response, has_codec);
    let first = seq![inputs[0]];
    assert(first.drop_last() =~= Seq::<FrameInput>::empty());
    assert(inputs.take(1) =~= first);
    assert(after_frames(stopped, first.drop_last()) == stopped);
    let acknowledged = after_frames(stopped, first);
    assert(acknowledged == frame_written(stopped, inputs[0].event_frame, inputs[0].message));
    if inputs.len() == 1 {
        assert(inputs =~= first);
        assert(frame_messages(stopped, first.drop_last()).len() == 0);
    } else {
        lemma_stop_acknowledged_once(s, request, response, has_codec, inputs.drop_last());
        let before = inputs.drop_last();
        assert(before.take(1) =~= first);
        assert(before[0] == inputs[0]);
    }
}

/// The life of a channel, step by step: each clause is one arrow of the
/// channel's state machine, stated for every channel in the state that the
/// arrow leaves.
///
/// - An open that the worker took makes a closed channel opening; one that
///   was refused leaves it closed.
/// - When the worker processes the open, a channel without request or stop is
///   idle; when it processes the close, the channel is closed.
/// - An accepted request to recognize, once its response has gone out, leaves
///   an idle channel waiting for speech; a refused one leaves it as it was.
/// - The first activity turns waiting into listening.
/// - Silence, or an utterance that lasts too long, leads to completion.
/// - A completion that goes out ends the request: the channel is idle. With
///   a result waiting, the next audio frame is what sends it.
/// - No input ends the request from any state in which one is active.
/// - A stop makes any open channel wait for the next frame, and that frame
///   makes it idle.
pub proof fn lemma_lifecycle_transitions(
    s: ChannelState,
    request: Request,
    response: MessageState,
    event: MessageState,
    duration: usize,
)
    ensures
        lifecycle(s) == Lifecycle::Closed ==> lifecycle(open_requested(s, true))
            == Lifecycle::Opening && lifecycle(open_requested(s, false)) == Lifecycle::Closed,
        s.recog_request is None && s.stop_response is None ==> lifecycle(
            msg_processed(s, RecogMsgType::OpenChannel),
        ) == Lifecycle::Idle,
        lifecycle(msg_processed(s, RecogMsgType::CloseChannel)) == Lifecycle::Closed,
        lifecycle(s) == Lifecycle::Idle && request.method == RecognizerMethod::Recognize
            ==> lifecycle(
            ChannelState {
                recog_request: Some(request),
                ..dispatched_channel(s, request, response, true)
            },
        ) == Lifecycle::AwaitingActivity,
        lifecycle(s) == Lifecycle::Idle && request.method == RecognizerMethod::Recognize
            ==> dispatched_channel(s, request, response, false) == s,
        lifecycle(s) == Lifecycle::AwaitingActivity ==> lifecycle(
            processed_channel(s, SpeechDetectorEvent::Activity, Some(event)),
        ) == Lifecycle::ActiveListening,
        lifecycle(s) == Lifecycle::ActiveListening ==> lifecycle(
            processed_channel(s, SpeechDetectorEvent::Inactivity { duration }, None),
        ) == Lifecycle::Completing,
        lifecycle(s) == Lifecycle::ActiveListening || lifecycle(s) == Lifecycle::AwaitingActivity
            ==> lifecycle(processed_channel(s, SpeechDetectorEvent::DurationTimeout, None))
            == Lifecycle::Completing,
        lifecycle(s) == Lifecycle::Completing ==> lifecycle(
            processed_channel(s, s.buffer.event, Some(event)),
        ) == Lifecycle::Idle,
        lifecycle(s) == Lifecycle::Completing && s.buffer.event == SpeechDetectorEvent::Recognizing
            ==> lifecycle(frame_written(s, false, Some(event))) == Lifecycle::Idle
            && frame_message(s, false, Some(event)) == Some(
            completion(event, CompletionCause::Success, placeholder_text()),
        ),
        s.connection == Connection::Open && s.stop_response is None && s.recog_request is Some
            ==> lifecycle(processed_channel(s, SpeechDetectorEvent::Noinput, Some(event)))
            == Lifecycle::Idle,
        s.connection == Connection::Open && request.method == RecognizerMethod::Stop ==> lifecycle(
            dispatched_channel(s, request, response, true),
        ) == Lifecycle::StopPending && lifecycle(
            frame_written(dispatched_channel(s, request, response, true), false, None),
        ) == Lifecycle::Idle,
{
    lemma_placeholder_text_nonempty();
}

} // verus!
