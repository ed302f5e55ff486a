use demo_recog::engine::{
    demo_recog_msg_signal, engine_close, engine_destroy, engine_open, mrcp_plugin_create,
};
use demo_recog::message::{RecognizerMethod, Request};
use demo_recog::queue::{ControlQueue, RecogMsg, RecogMsgType};

fn process(id: usize, method: RecognizerMethod) -> RecogMsgType {
    RecogMsgType::RequestProcess { request: Request { id, method } }
}

#[test]
fn queue_hands_out_in_enqueue_order() {
    let mut queue = ControlQueue::new(8);
    let first = RecogMsg { type_: process(1, RecognizerMethod::Recognize), channel: 10 };
    let second = RecogMsg { type_: process(2, RecognizerMethod::Stop), channel: 20 };
    assert!(queue.enqueue(first));
    assert!(queue.enqueue(second));
    assert_eq!(queue.drain_one(), Some(first));
    assert_eq!(queue.drain_one(), Some(second));
    assert_eq!(queue.drain_one(), None);
}

#[test]
fn queue_refuses_when_full() {
    let mut queue = ControlQueue::new(2);
    let open = RecogMsg { type_: RecogMsgType::OpenChannel, channel: 1 };
    let close = RecogMsg { type_: RecogMsgType::CloseChannel, channel: 1 };
    assert!(queue.enqueue(open));
    assert!(queue.enqueue(close));
    assert!(!queue.enqueue(open));
    assert_eq!(queue.drain_one(), Some(open));
    // A place is free again.
    assert!(queue.enqueue(open));
    assert_eq!(queue.drain_one(), Some(close));
    assert_eq!(queue.drain_one(), Some(open));
    assert_eq!(queue.drain_one(), None);
}

#[test]
fn queue_without_places_takes_nothing() {
    let mut queue = ControlQueue::new(0);
    assert!(!queue.enqueue(RecogMsg { type_: RecogMsgType::OpenChannel, channel: 1 }));
    assert_eq!(queue.drain_one(), None);
}

#[test]
fn worker_executes_requests_in_enqueue_order() {
    let mut engine = mrcp_plugin_create(16);
    assert!(engine_open(&mut engine));
    // Two callers, two channels, one worker.
    assert!(demo_recog_msg_signal(&mut engine, process(1, RecognizerMethod::Recognize), 100));
    assert!(demo_recog_msg_signal(&mut engine, process(2, RecognizerMethod::Stop), 200));
    assert_eq!(
        engine.drain_one(),
        Some(RecogMsg { type_: process(1, RecognizerMethod::Recognize), channel: 100 })
    );
    assert_eq!(
        engine.drain_one(),
        Some(RecogMsg { type_: process(2, RecognizerMethod::Stop), channel: 200 })
    );
    assert_eq!(engine.drain_one(), None);
}

#[test]
fn worker_takes_messages_only_while_it_runs() {
    let mut engine = mrcp_plugin_create(4);
    assert!(demo_recog_msg_signal(&mut engine, RecogMsgType::OpenChannel, 1));
    assert_eq!(engine.drain_one(), None);
    assert!(engine_open(&mut engine));
    assert_eq!(engine.drain_one(), Some(RecogMsg { type_: RecogMsgType::OpenChannel, channel: 1 }));
    assert!(demo_recog_msg_signal(&mut engine, RecogMsgType::CloseChannel, 1));
    engine_close(&mut engine);
    assert_eq!(engine.drain_one(), None);
    assert!(engine_open(&mut engine));
    assert_eq!(
        engine.drain_one(),
        Some(RecogMsg { type_: RecogMsgType::CloseChannel, channel: 1 })
    );
}

#[test]
fn signal_fails_when_no_slot_is_left() {
    let mut engine = mrcp_plugin_create(1);
    assert!(demo_recog_msg_signal(&mut engine, RecogMsgType::OpenChannel, 1));
    assert!(!demo_recog_msg_signal(&mut engine, RecogMsgType::CloseChannel, 1));
    assert!(engine_open(&mut engine));
    assert_eq!(engine.drain_one(), Some(RecogMsg { type_: RecogMsgType::OpenChannel, channel: 1 }));
    assert_eq!(engine.drain_one(), None);
}

#[test]
fn signal_fails_after_destroy() {
    let mut engine = mrcp_plugin_create(4);
    assert!(engine_open(&mut engine));
    assert!(demo_recog_msg_signal(&mut engine, RecogMsgType::OpenChannel, 1));
    assert!(engine_destroy(&mut engine));
    assert!(!demo_recog_msg_signal(&mut engine, RecogMsgType::OpenChannel, 1));
    assert_eq!(engine.drain_one(), None);
    // Opening an engine without a worker starts nothing.
    assert!(engine_open(&mut engine));
    assert_eq!(engine.drain_one(), None);
    assert!(!demo_recog_msg_signal(&mut engine, RecogMsgType::OpenChannel, 1));
}
