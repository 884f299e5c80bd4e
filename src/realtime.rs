use vstd::prelude::*;
use crate::buffer::FixedBuffer;
use crate::channel::Consumer;
use crate::message::{Message, Poll, Status};

verus! {

/// What the realtime side remembers between ticks.
#[derive(Clone, Copy)]
pub struct RealtimeState<S> {
    /// The last buffer received; `None` until the first one arrives.
    pub current: Option<FixedBuffer<S>>,
    /// Set once the end of the stream has been seen; never cleared.
    pub stopped: bool,
}

/// The state of a realtime side that has received nothing yet.
pub open spec fn initial_state<S>() -> RealtimeState<S> {
    RealtimeState { current: None, stopped: false }
}

/// What the output holds after a tick that goes on playing: the current
/// buffer if there is one, else what the caller put there.
pub open spec fn played<S>(current: Option<FixedBuffer<S>>, out: FixedBuffer<S>) -> FixedBuffer<S> {
    match current {
        Some(b) => b,
        None => out,
    }
}

/// One tick, given what the receive gave: the next state, the output and the
/// status.
///
/// A stopped side stays stopped and touches nothing. A new buffer becomes
/// the current one and is played. `Shutdown` stops the side without writing
/// the output; so does a closed channel, which is taken as an implicit
/// `Shutdown` so that a producer that died cannot leave the realtime side
/// ticking forever. With nothing pending the current buffer is played
/// again, or the output left as it was when there is none yet. At most one
/// message is taken per tick.
pub open spec fn step<S>(st: RealtimeState<S>, out: FixedBuffer<S>, p: Poll<S>) -> (RealtimeState<S>, FixedBuffer<S>, Status) {
    if st.stopped {
        (st, out, Status::Shutdown)
    } else {
        match p {
            Poll::Received(Message::NewBuffer(b)) => (
                RealtimeState { current: Some(b), stopped: false },
                b,
                Status::Continue,
            ),
            Poll::Received(Message::Shutdown) | Poll::Closed => (
                RealtimeState { current: st.current, stopped: true },
                out,
                Status::Shutdown,
            ),
            Poll::Empty => (st, played(st.current, out), Status::Continue),
        }
    }
}

impl<S: Copy> RealtimeState<S> {
    /// A side that has received nothing and is running.
    pub fn new() -> (r: Self)
        ensures
            r == initial_state::<S>(),
    {
        RealtimeState { current: None, stopped: false }
    }

    /// Performs one tick on what a receive gave. Never waits, never
    /// allocates: at most one copy of a buffer into `output`.
    pub fn apply(&mut self, p: Poll<S>, output: &mut FixedBuffer<S>) -> (r: Status)
        ensures
            (*final(self), *final(output), r) == step(*old(self), *old(output), p),
    {
        if self.stopped {
            return Status::Shutdown;
        }
        match p {
            Poll::Received(Message::NewBuffer(b)) => {
                self.current = Some(b);
                *output = b;
                Status::Continue
            },
            Poll::Received(Message::Shutdown) | Poll::Closed => {
                self.stopped = true;
                Status::Shutdown
            },
            Poll::Empty => {
                if let Some(b) = self.current {
                    *output = b;
                }
                Status::Continue
            },
        }
    }
}

/// The realtime side: the buffer it plays and the receiving half of the
/// channel. Its driver calls `tick` once per hardware period, from one
/// thread only.
#[verifier::reject_recursive_types(S)]
pub struct RealtimeEndpoint<S> {
    state: RealtimeState<S>,
    incoming: Consumer<S>,
}

impl<S: Copy> RealtimeEndpoint<S> {
    /// What the side remembers between ticks.
    pub closed spec fn view(&self) -> RealtimeState<S> {
        self.state
    }

    /// A running side that has received nothing and reads from `incoming`.
    pub fn new(incoming: Consumer<S>) -> (r: Self)
        ensures
            r@ == initial_state::<S>(),
    {
        RealtimeEndpoint { state: RealtimeState::new(), incoming }
    }

    /// The buffer being played, if one has arrived.
    pub fn current(&self) -> (r: Option<FixedBuffer<S>>)
        ensures
            r == self@.current,
    {
        self.state.current
    }

    /// Whether the end of the stream has been seen.
    pub fn is_stopped(&self) -> (r: bool)
        ensures
            r == self@.stopped,
    {
        self.state.stopped
    }

    /// One realtime callback: one receive that never waits, then one `step`
    /// on what it gave. Once stopped it receives nothing more and keeps
    /// answering `Shutdown`.
    pub fn tick(&mut self, output: &mut FixedBuffer<S>) -> (r: Status)
        ensures
            exists|p: Poll<S>| #[trigger] step(old(self)@, *old(output), p)
                == (final(self)@, *final(output), r),
            old(self)@.stopped ==> r == Status::Shutdown && final(self)@ == old(self)@
                && *final(output) == *old(output),
            r == Status::Shutdown ==> final(self)@.stopped && *final(output) == *old(output)
                && final(self)@.current == old(self)@.current,
            r == Status::Continue ==> !final(self)@.stopped
                && *final(output) == played(final(self)@.current, *old(output)),
            final(self)@.current == old(self)@.current || r == Status::Continue,
    {
        if self.state.stopped {
            proof { assert(step(old(self)@, *old(output), Poll::Empty) == (self@, *output, Status::Shutdown)); }
            return Status::Shutdown;
        }
        let p = self.incoming.try_receive();
        let ghost gp = p;
        let r = self.state.apply(p, output);
        proof { assert(step(old(self)@, *old(output), gp) == (self@, *output, r)); }
        r
    }
}

} // verus!
