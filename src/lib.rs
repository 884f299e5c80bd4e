//! Hand-off of audio buffers from a control thread to a realtime thread.
//!
//! The control side sends buffers, then `Shutdown`, through a bounded FIFO
//! channel. The realtime side, once per hardware period, takes at most one
//! message without ever waiting, and writes the latest buffer into the
//! output; a closed channel ends its stream as `Shutdown` does.
pub mod buffer;
pub mod channel;
pub mod control;
pub mod message;
pub mod realtime;
pub mod stream;
