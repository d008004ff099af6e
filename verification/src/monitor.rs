//! Recording backends.

pub mod channel;
pub mod file_recorder;
pub mod ring_buffer;

pub use crate::capture::BusCapture;
pub use channel::RecordSink;
pub use ring_buffer::RingBufferCapture;
