use vstd::prelude::*;
use vstd::slice::slice_to_vec;
use vstd::string::StringSliceAdditionalSpecFns;

verus! {

/// The methods of the recognizer resource that a request can name.
#[derive(Debug, PartialEq, Eq, Structural, Clone, Copy)]
pub enum RecognizerMethod {
    SetParams,
    GetParams,
    DefineGrammar,
    Recognize,
    GetResult,
    StartInputTimers,
    Stop,
    /// A method this engine does not know, with the number the host gave it.
    Unexpected { id: usize },
}

/// The events that the engine reports about a request.
#[derive(Debug, PartialEq, Eq, Structural, Clone, Copy)]
pub enum RecognizerEvent {
    /// Speech has begun.
    StartOfInput,
    /// Recognition has ended, with or without a result.
    RecognitionComplete,
}

/// How far the work on a request has come.
#[derive(Debug, PartialEq, Eq, Structural, Clone, Copy)]
pub enum RequestState {
    InProgress,
    Complete,
}

/// The status that a response carries.
#[derive(Debug, PartialEq, Eq, Structural, Clone, Copy)]
pub enum StatusCode {
    Success,
    MethodFailed,
}

/// Why recognition has ended.
#[derive(Debug, PartialEq, Eq, Structural, Clone, Copy)]
pub enum CompletionCause {
    Success,
    NoInputTimeout,
}

/// A request of the host, by handle: the host owns the object, the engine
/// refers to it for as long as it works on it.
#[derive(Debug, PartialEq, Eq, Structural, Clone, Copy)]
pub struct Request {
    /// The host's handle for the request.
    pub id: usize,
    /// The method that the request names.
    pub method: RecognizerMethod,
}

/// What a message holds, as plain mathematical values.
pub struct MessageState {
    pub id: usize,
    pub request_state: Option<RequestState>,
    pub status_code: Option<StatusCode>,
    pub completion_cause: Option<CompletionCause>,
    pub content_type: Option<Seq<char>>,
    pub body: Seq<u8>,
}

/// A message as the host made it: nothing is set.
pub open spec fn untouched(id: usize) -> MessageState {
    MessageState {
        id,
        request_state: None,
        status_code: None,
        completion_cause: None,
        content_type: None,
        body: Seq::empty(),
    }
}

/// The content type of a recognition result.
pub open spec fn result_content_type() -> Seq<char> {
    "text/plain; charset=UTF-8"@
}

/// A response or an event that the host has made and the engine fills in.
///
/// The host's object is named by `id`. Each field that is `Some` is one that
/// the engine has set: when the message is handed over, the host writes it
/// into its object and, for a header field, marks the property as present.
/// A field that is `None` stays as the host made it. An empty body is no
/// body.
#[derive(Debug, Clone, PartialEq, Eq)]
pub struct Message {
    pub id: usize,
    pub request_state: Option<RequestState>,
    pub status_code: Option<StatusCode>,
    pub completion_cause: Option<CompletionCause>,
    pub content_type: Option<String>,
    pub body: Vec<u8>,
}

impl View for Message {
    type V = MessageState;

    open spec fn view(&self) -> MessageState {
        MessageState {
            id: self.id,
            request_state: self.request_state,
            status_code: self.status_code,
            completion_cause: self.completion_cause,
            content_type: match self.content_type {
                Some(text) => Some(text@),
                None => None,
            },
            body: self.body@,
        }
    }
}

impl Message {
    /// The message for the host's object `id`, with nothing set.
    pub fn new(id: usize) -> (message: Message)
        ensures
            message@ == untouched(id),
    {
        Message {
            id,
            request_state: None,
            status_code: None,
            completion_cause: None,
            content_type: None,
            body: Vec::new(),
        }
    }
}

/// Puts a recognition result into `message`: the text becomes the body, as
/// UTF-8, and the content type says so. Everything else stays.
pub fn demo_recog_result_load(recognized: &str, message: &mut Message) -> (loaded: bool)
    ensures
        loaded,
        final(message)@ == (MessageState {
            content_type: Some(result_content_type()),
            body: recognized.spec_bytes(),
            ..old(message)@
        }),
{
    message.content_type = Some("text/plain; charset=UTF-8".to_owned());
    message.body = slice_to_vec(recognized.as_bytes());
    true
}

} // verus!
