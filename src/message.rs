use vstd::prelude::*;
use crate::buffer::FixedBuffer;

verus! {

/// What the control side hands to the realtime side.
pub enum Message<S> {
    /// A buffer that replaces the one being played.
    NewBuffer(FixedBuffer<S>),
    /// The end of the stream: nothing follows it.
    Shutdown,
}

/// The outcome of one non-blocking receive.
pub enum Poll<S> {
    /// The next message, in the order in which it was sent.
    Received(Message<S>),
    /// Nothing is pending right now; more may come.
    Empty,
    /// Nothing is pending and nothing ever will be: the producer is gone.
    Closed,
}

/// What one realtime tick tells its driver.
#[derive(Clone, Copy, Debug, PartialEq, Eq, Structural)]
pub enum Status {
    /// Keep calling `tick`.
    Continue,
    /// The stream has ended; the driver may stop.
    Shutdown,
}

/// Why a send did not hand its message over.
#[derive(Clone, Copy, Debug, PartialEq, Eq, Structural)]
pub enum ChannelError {
    /// The consumer is gone: nothing sent now can ever be received.
    Closed,
    /// A non-blocking send found every slot of the channel taken.
    Full,
}

} // verus!
