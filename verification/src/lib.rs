pub mod channel;
pub mod engine;
pub mod lifecycle;
pub mod message;
pub mod queue;
pub mod recog_buffer;
pub mod speech_detector;
