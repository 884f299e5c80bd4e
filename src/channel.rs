use vstd::prelude::*;
use std::sync::mpsc::{Receiver, SyncSender, TryRecvError, TrySendError};
use crate::buffer::FixedBuffer;
use crate::message::{ChannelError, Message, Poll};

verus! {

#[verifier::external_type_specification]
#[verifier::external_body]
#[verifier::reject_recursive_types(T)]
pub struct ExReceiver<T>(Receiver<T>);

#[verifier::external_type_specification]
#[verifier::external_body]
#[verifier::reject_recursive_types(T)]
pub struct ExSyncSender<T>(SyncSender<T>);

/// Relies on std::sync::mpsc::sync_channel: a bounded FIFO channel that holds
/// at most `bound` messages (none for 0, where each send waits for its receive).
#[verifier::external_body]
fn std_sync_channel<T>(bound: usize) -> (SyncSender<T>, Receiver<T>) {
    std::sync::mpsc::sync_channel(bound)
}

/// Relies on std::sync::mpsc::SyncSender::send: it waits for room and fails
/// only when the receiver is gone. Whether it fails depends on the other side.
#[verifier::external_body]
fn std_send<T>(tx: &SyncSender<T>, t: T) -> (r: Result<(), ChannelError>)
    ensures
        r is Err ==> r->Err_0 == ChannelError::Closed,
{
    match tx.send(t) {
        Ok(()) => Ok(()),
        Err(_) => Err(ChannelError::Closed),
    }
}

/// Relies on std::sync::mpsc::SyncSender::try_send: it never waits, and
/// fails when the channel is full or the receiver is gone.
#[verifier::external_body]
fn std_try_send<T>(tx: &SyncSender<T>, t: T) -> (r: Result<(), ChannelError>) {
    match tx.try_send(t) {
        Ok(()) => Ok(()),
        Err(TrySendError::Full(_)) => Err(ChannelError::Full),
        Err(TrySendError::Disconnected(_)) => Err(ChannelError::Closed),
    }
}

/// Relies on std::sync::mpsc::Receiver::try_recv: it never waits; it yields
/// the oldest pending message, or tells an empty channel from one whose
/// senders are all gone. What it yields depends on the other side.
#[verifier::external_body]
fn std_try_recv<S>(rx: &Receiver<Message<S>>) -> Poll<S> {
    match rx.try_recv() {
        Ok(m) => Poll::Received(m),
        Err(TryRecvError::Empty) => Poll::Empty,
        Err(TryRecvError::Disconnected) => Poll::Closed,
    }
}

/// The sending half of a hand-off channel.
///
/// It records, as ghost state, every message that it has handed over, in
/// order; once `Shutdown` is among them it sends nothing more.
#[verifier::reject_recursive_types(S)]
pub struct Producer<S> {
    tx: SyncSender<Message<S>>,
    shut: bool,
    sent: Ghost<Seq<Message<S>>>,
}

/// The receiving half of a hand-off channel. Receiving never waits.
#[verifier::reject_recursive_types(S)]
pub struct Consumer<S> {
    rx: Receiver<Message<S>>,
}

/// Whether a message is the end of the stream.
pub open spec fn is_shutdown<S>(m: Message<S>) -> bool {
    m is Shutdown
}

impl<S> Producer<S> {
    /// The messages handed over so far, oldest first.
    pub closed spec fn sent(&self) -> Seq<Message<S>> {
        self.sent@
    }

    /// Whether `Shutdown` has been handed over.
    pub open spec fn shutdown_sent(&self) -> bool {
        exists|i: int| 0 <= i < self.sent().len() && is_shutdown(#[trigger] self.sent()[i])
    }

    /// The flag kept at run time agrees with the ghost record.
    pub closed spec fn wf(&self) -> bool {
        self.shut == self.shutdown_sent()
    }

    /// Whether `Shutdown` has been handed over; after it, nothing may be sent.
    pub fn has_sent_shutdown(&self) -> (r: bool)
        requires
            self.wf(),
        ensures
            r == self.shutdown_sent(),
    {
        proof { reveal(Producer::wf); }
        self.shut
    }

    /// Hands a message over, waiting while the channel has no room (with a
    /// capacity of 0, until the consumer takes it). Fails only when the
    /// consumer is gone, and then nothing is recorded as sent. Sending after
    /// `Shutdown` is a defect of the caller, which the precondition rules out.
    pub fn send(&mut self, m: Message<S>) -> (r: Result<(), ChannelError>)
        requires
            old(self).wf(),
            !old(self).shutdown_sent(),
        ensures
            final(self).wf(),
            r is Ok ==> final(self).sent() == old(self).sent().push(m),
            r is Err ==> r == Err::<(), ChannelError>(ChannelError::Closed)
                && final(self).sent() == old(self).sent(),
    {
        let ghost gm = m;
        let stop = match m {
            Message::Shutdown => true,
            Message::NewBuffer(_) => false,
        };
        let r = std_send(&self.tx, m);
        self.record(r, stop, Ghost(gm));
        r
    }

    /// Hands a message over if the channel has room now, and never waits.
    /// Fails with `Full` when it has none and with `Closed` when the consumer
    /// is gone; then nothing is recorded as sent.
    pub fn try_send(&mut self, m: Message<S>) -> (r: Result<(), ChannelError>)
        requires
            old(self).wf(),
            !old(self).shutdown_sent(),
        ensures
            final(self).wf(),
            r is Ok ==> final(self).sent() == old(self).sent().push(m),
            r is Err ==> final(self).sent() == old(self).sent(),
    {
        let ghost gm = m;
        let stop = match m {
            Message::Shutdown => true,
            Message::NewBuffer(_) => false,
        };
        let r = std_try_send(&self.tx, m);
        self.record(r, stop, Ghost(gm));
        r
    }

    fn record(&mut self, r: Result<(), ChannelError>, stop: bool, m: Ghost<Message<S>>)
        requires
            old(self).wf(),
            !old(self).shutdown_sent(),
            stop == is_shutdown(m@),
        ensures
            final(self).wf(),
            r is Ok ==> final(self).sent() == old(self).sent().push(m@),
            r is Err ==> final(self).sent() == old(self).sent(),
    {
        proof { reveal(Producer::wf); }
        if r.is_ok() {
            self.sent = Ghost(self.sent@.push(m@));
            self.shut = stop;
            proof {
                let n = old(self).sent().len();
                assert(self.sent()[n as int] == m@);
                if !stop {
                    assert forall|i: int| 0 <= i < self.sent().len() implies !is_shutdown(#[trigger] self.sent()[i]) by {
                        if i < n {
                            assert(self.sent()[i] == old(self).sent()[i]);
                        }
                    }
                }
            }
        }
    }
}

impl<S> Consumer<S> {
    /// One receive that never waits: the oldest pending message, `Empty`
    /// when none is pending, or `Closed` when none is pending and the
    /// producer is gone.
    pub fn try_receive(&self) -> Poll<S> {
        std_try_recv(&self.rx)
    }
}

/// A new hand-off channel that holds up to `capacity` pending messages;
/// with a capacity of 0 every send waits for its receive.
pub fn handoff_channel<S>(capacity: usize) -> (r: (Producer<S>, Consumer<S>))
    ensures
        r.0.wf(),
        r.0.sent() == Seq::<Message<S>>::empty(),
{
    let (tx, rx) = std_sync_channel(capacity);
    let p = Producer { tx, shut: false, sent: Ghost(Seq::empty()) };
    proof { reveal(Producer::wf); }
    (p, Consumer { rx })
}

} // verus!
