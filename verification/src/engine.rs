use crate::queue::{after_drains, enqueued, ControlQueue, RecogMsg, RecogMsgType};
use vstd::prelude::*;

verus! {

/// What an engine holds, as plain mathematical values.
pub struct EngineState {
    /// The messages that wait for the worker, or `None` once the worker is
    /// gone.
    pub task: Option<Seq<RecogMsg>>,
    /// The number of places in the worker's queue.
    pub slots: nat,
    /// Whether the worker runs.
    pub running: bool,
}

/// The engine after a message was offered to its worker.
pub open spec fn signalled(s: EngineState, msg: RecogMsg) -> EngineState {
    match s.task {
        Some(q) => EngineState { task: Some(enqueued(q, s.slots, msg)), ..s },
        None => s,
    }
}

/// Whether the worker of `s` has a place for one more message.
pub open spec fn accepts(s: EngineState) -> bool {
    s.task matches Some(q) && q.len() < s.slots
}

/// The message that the worker of `s` takes next, if it takes one.
pub open spec fn next_msg(s: EngineState) -> Option<RecogMsg> {
    match s.task {
        Some(q) if s.running && q.len() > 0 => Some(q[0]),
        _ => None,
    }
}

/// The engine after its worker has taken what [`next_msg`] names.
pub open spec fn drained_one(s: EngineState) -> EngineState {
    match s.task {
        Some(q) if s.running => EngineState { task: Some(after_drains(q, 1)), ..s },
        _ => s,
    }
}

/// The engine: it owns the one worker that serves the channels, and with it
/// the queue through which every open, close and request reaches a channel.
pub struct DemoRecogEngine {
    task: Option<ControlQueue>,
    running: bool,
}

impl View for DemoRecogEngine {
    type V = EngineState;

    closed spec fn view(&self) -> EngineState {
        EngineState {
            task: match self.task {
                Some(queue) => Some(queue@),
                None => None,
            },
            slots: match self.task {
                Some(queue) => queue.slots(),
                None => 0,
            },
            running: self.running,
        }
    }
}

impl DemoRecogEngine {
    /// Takes the next message for the worker. The worker takes messages only
    /// while it runs, one at a time, and finishes each before it comes back
    /// for the next.
    pub fn drain_one(&mut self) -> (msg: Option<RecogMsg>)
        ensures
            msg == next_msg(old(self)@),
            final(self)@ == drained_one(old(self)@),
    {
        if !self.running {
            return None;
        }
        match self.task.as_mut() {
            Some(queue) => queue.drain_one(),
            None => None,
        }
    }
}

/// Creates the engine, with a worker that does not run yet and has `slots`
/// places for messages.
pub fn mrcp_plugin_create(slots: usize) -> (engine: DemoRecogEngine)
    ensures
        engine@ == (EngineState {
            task: Some(Seq::<RecogMsg>::empty()),
            slots: slots as nat,
            running: false,
        }),
{
    DemoRecogEngine { task: Some(ControlQueue::new(slots)), running: false }
}

/// Destroys the worker. Messages that still waited are gone with it, and
/// nothing can be signalled any more.
pub fn engine_destroy(engine: &mut DemoRecogEngine) -> (destroyed: bool)
    ensures
        destroyed,
        final(engine)@ == (EngineState { task: None, slots: 0, running: false }),
{
    engine.task = None;
    engine.running = false;
    true
}

/// Opens the engine: the worker, if there is one, starts to run. The result
/// is the status with which the host is answered, which is always `true`.
pub fn engine_open(engine: &mut DemoRecogEngine) -> (status: bool)
    ensures
        status,
        final(engine)@ == (EngineState {
            running: old(engine)@.task is Some,
            ..old(engine)@
        }),
{
    engine.running = engine.task.is_some();
    true
}

/// Closes the engine: the worker stops. What waits in its queue stays there.
/// The host is to be answered that the engine has closed.
pub fn engine_close(engine: &mut DemoRecogEngine)
    ensures
        final(engine)@ == (EngineState { running: false, ..old(engine)@ }),
{
    engine.running = false;
}

/// Sends one operation for the channel `channel` to the worker and says
/// whether it was taken. It is refused when the worker is gone or has no
/// place left; then nothing has changed, and the operation is dropped.
pub fn demo_recog_msg_signal(
    engine: &mut DemoRecogEngine,
    type_: RecogMsgType,
    channel: usize,
) -> (status: bool)
    ensures
        status == accepts(old(engine)@),
        final(engine)@ == signalled(old(engine)@, (RecogMsg { type_, channel })),
{
    match engine.task.as_mut() {
        Some(queue) => queue.enqueue(RecogMsg { type_, channel }),
        None => false,
    }
}

} // verus!
