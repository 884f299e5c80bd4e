use vstd::prelude::*;
use crate::buffer::FixedBuffer;
use crate::channel::Producer;
use crate::message::{ChannelError, Message};

verus! {

/// Each buffer as the message that hands it over, in order.
pub open spec fn announce<S>(bufs: Seq<FixedBuffer<S>>) -> Seq<Message<S>> {
    bufs.map_values(|b: FixedBuffer<S>| Message::NewBuffer(b))
}

/// The whole stream for `bufs`: each buffer in order, then `Shutdown`.
pub open spec fn handoff_sequence<S>(bufs: Seq<FixedBuffer<S>>) -> Seq<Message<S>> {
    announce(bufs).push(Message::Shutdown)
}

/// The control side: it owns the sending half of the channel.
#[verifier::reject_recursive_types(S)]
pub struct ControlEndpoint<S> {
    outgoing: Producer<S>,
}

impl<S: Copy> ControlEndpoint<S> {
    /// The messages handed over so far, oldest first.
    pub closed spec fn sent(&self) -> Seq<Message<S>> {
        self.outgoing.sent()
    }

    /// The sending half is well formed.
    pub closed spec fn wf(&self) -> bool {
        self.outgoing.wf()
    }

    /// Whether `Shutdown` has been handed over.
    pub closed spec fn shutdown_sent(&self) -> bool {
        self.outgoing.shutdown_sent()
    }

    /// A control side that sends through `outgoing`.
    pub fn new(outgoing: Producer<S>) -> (r: Self)
        requires
            outgoing.wf(),
        ensures
            r.wf(),
            r.sent() == outgoing.sent(),
            r.shutdown_sent() == outgoing.shutdown_sent(),
    {
        ControlEndpoint { outgoing }
    }

    /// Whether `Shutdown` has been handed over; after it `run` may not be
    /// called again.
    pub fn has_sent_shutdown(&self) -> (r: bool)
        requires
            self.wf(),
        ensures
            r == self.shutdown_sent(),
    {
        self.outgoing.has_sent_shutdown()
    }

    /// Sends each buffer in order, then `Shutdown`, then returns. A failed
    /// send means that the realtime side is gone: it ends the run with
    /// `Closed`, and nothing more is sent. Nothing is ever sent after
    /// `Shutdown`.
    pub fn run(&mut self, buffers: &Vec<FixedBuffer<S>>) -> (r: Result<(), ChannelError>)
        requires
            old(self).wf(),
            !old(self).shutdown_sent(),
        ensures
            final(self).wf(),
            r is Ok ==> final(self).sent() == old(self).sent() + handoff_sequence(buffers@),
            r is Ok <==> final(self).shutdown_sent(),
            r is Err ==> r->Err_0 == ChannelError::Closed && exists|k: int|
                0 <= k <= buffers@.len() && final(self).sent() == old(self).sent()
                    + announce(#[trigger] buffers@.take(k)),
    {
        proof {
            reveal(ControlEndpoint::sent);
            reveal(ControlEndpoint::wf);
            reveal(ControlEndpoint::shutdown_sent);
        }
        let ghost start = self.outgoing.sent();
        let mut i: usize = 0;
        while i < buffers.len()
            invariant
                self.outgoing.wf(),
                !self.outgoing.shutdown_sent(),
                i <= buffers@.len(),
                self.outgoing.sent() == start + announce(buffers@.take(i as int)),
                start == old(self).sent(),
            decreases buffers@.len() - i,
        {
            let b = buffers[i];
            let ghost before = self.outgoing.sent();
            match self.outgoing.send(Message::NewBuffer(b)) {
                Ok(()) => {},
                Err(e) => {
                    assert(self.outgoing.sent() == start + announce(buffers@.take(i as int)));
                    return Err(e);
                },
            }
            proof {
                assert(buffers@.take(i + 1) =~= buffers@.take(i as int).push(b));
                assert(announce(buffers@.take(i + 1)) =~= announce(buffers@.take(i as int)).push(
                    Message::NewBuffer(b),
                ));
                assert(self.outgoing.sent() =~= start + announce(buffers@.take(i + 1)));
                assert(!self.outgoing.shutdown_sent()) by {
                    assert forall|j: int| 0 <= j < self.outgoing.sent().len()
                        implies !(#[trigger] self.outgoing.sent()[j] is Shutdown) by {
                        if j < before.len() {
                            assert(self.outgoing.sent()[j] == before[j]);
                        }
                    }
                }
            }
            i = i + 1;
        }
        let r = self.outgoing.send(Message::Shutdown);
        proof {
            assert(buffers@.take(buffers@.len() as int) =~= buffers@);
            if r is Ok {
                assert(self.outgoing.sent() =~= start + handoff_sequence(buffers@));
                let n = self.outgoing.sent().len() - 1;
                assert(self.outgoing.sent()[n] is Shutdown);
            }
        }
        r
    }
}

} // verus!
