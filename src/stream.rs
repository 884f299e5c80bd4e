use vstd::prelude::*;
use crate::buffer::FixedBuffer;
use crate::control::{announce, handoff_sequence};
use crate::message::{Message, Poll, Status};
use crate::realtime::{played, step, RealtimeState};

verus! {

/// A run of ticks: the state and output after `polls`, one tick per poll,
/// and the status of each tick.
pub open spec fn run_ticks<S>(st: RealtimeState<S>, out: FixedBuffer<S>, polls: Seq<Poll<S>>) -> (RealtimeState<S>, FixedBuffer<S>, Seq<Status>)
    decreases polls.len(),
{
    if polls.len() == 0 {
        (st, out, Seq::empty())
    } else {
        let first = step(st, out, polls[0]);
        let rest = run_ticks(first.0, first.1, polls.drop_first());
        (rest.0, rest.1, seq![first.2] + rest.2)
    }
}

/// Whether `polls` is what a receiver can see of a FIFO channel on which
/// `msgs` were sent and then the sender dropped: the messages in order, one
/// per poll, with `Empty` polls anywhere among them and `Closed` ones only
/// after the last.
pub open spec fn fifo_observation<S>(polls: Seq<Poll<S>>, msgs: Seq<Message<S>>) -> bool
    decreases polls.len(),
{
    if polls.len() == 0 {
        msgs.len() == 0
    } else {
        match polls[0] {
            Poll::Empty => fifo_observation(polls.drop_first(), msgs),
            Poll::Closed => msgs.len() == 0 && fifo_observation(polls.drop_first(), msgs),
            Poll::Received(m) => msgs.len() > 0 && msgs[0] == m && fifo_observation(
                polls.drop_first(),
                msgs.drop_first(),
            ),
        }
    }
}

/// Whether `ss` is `Continue` before position `k` and `Shutdown` from it on.
pub open spec fn stops_at(ss: Seq<Status>, k: int) -> bool {
    &&& 0 <= k < ss.len()
    &&& forall|i: int| 0 <= i < k ==> #[trigger] ss[i] == Status::Continue
    &&& forall|i: int| k <= i < ss.len() ==> #[trigger] ss[i] == Status::Shutdown
}

/// Once stopped, a realtime side stays as it is and answers `Shutdown` to
/// every further tick, whatever the channel gives.
pub proof fn lemma_stopped_is_final<S>(st: RealtimeState<S>, out: FixedBuffer<S>, polls: Seq<Poll<S>>)
    requires
        st.stopped,
    ensures
        run_ticks(st, out, polls).0 == st,
        run_ticks(st, out, polls).1 == out,
        run_ticks(st, out, polls).2 == Seq::new(polls.len(), |_i: int| Status::Shutdown),
    decreases polls.len(),
{
    if polls.len() > 0 {
        lemma_stopped_is_final(st, out, polls.drop_first());
        assert(run_ticks(st, out, polls).2 =~= Seq::new(polls.len(), |_i: int| Status::Shutdown));
    }
}

/// A closed channel ends the stream as an explicit `Shutdown` does: the
/// tick that sees it stops the side and answers `Shutdown`.
pub proof fn lemma_closed_is_shutdown<S>(st: RealtimeState<S>, out: FixedBuffer<S>)
    ensures
        step(st, out, Poll::Closed) == step(st, out, Poll::Received(Message::Shutdown)),
        step(st, out, Poll::Closed).0.stopped,
        step(st, out, Poll::Closed).2 == Status::Shutdown,
{
}

/// While nothing arrives, a running side keeps answering `Continue`, keeps
/// its state, and plays its current buffer again; before any buffer has
/// arrived it leaves the output as the caller set it.
pub proof fn lemma_waiting_keeps_playing<S>(st: RealtimeState<S>, out: FixedBuffer<S>, polls: Seq<Poll<S>>)
    requires
        !st.stopped,
        forall|i: int| 0 <= i < polls.len() ==> #[trigger] polls[i] == Poll::<S>::Empty,
    ensures
        run_ticks(st, out, polls).0 == st,
        run_ticks(st, out, polls).1 == if polls.len() == 0 { out } else { played(st.current, out) },
        st.current is None ==> run_ticks(st, out, polls).1 == out,
        run_ticks(st, out, polls).2 == Seq::new(polls.len(), |_i: int| Status::Continue),
    decreases polls.len(),
{
    if polls.len() > 0 {
        let rest = polls.drop_first();
        assert(polls[0] == Poll::<S>::Empty);
        assert forall|i: int| 0 <= i < rest.len() implies #[trigger] rest[i] == Poll::<S>::Empty by {
            assert(rest[i] == polls[i + 1]);
        }
        lemma_waiting_keeps_playing(st, played(st.current, out), rest);
        assert(run_ticks(st, out, polls).2 =~= Seq::new(polls.len(), |_i: int| Status::Continue));
    }
}

/// The last buffer of the stream is what a realtime side plays when it
/// sees the end. Whatever the timing, a running side that receives `bufs`
/// and then `Shutdown` in order answers `Continue` up to the tick that
/// takes the `Shutdown`, and `Shutdown` from that tick on; it ends stopped,
/// with the last of `bufs` as its current buffer (or its earlier one, when
/// `bufs` is empty): no buffer is lost, none comes out of order.
pub proof fn lemma_last_buffer_wins<S>(
    st: RealtimeState<S>,
    out: FixedBuffer<S>,
    bufs: Seq<FixedBuffer<S>>,
    polls: Seq<Poll<S>>,
)
    requires
        !st.stopped,
        fifo_observation(polls, handoff_sequence(bufs)),
    ensures
        run_ticks(st, out, polls).0.stopped,
        run_ticks(st, out, polls).0.current == if bufs.len() > 0 {
            Some(bufs.last())
        } else {
            st.current
        },
        run_ticks(st, out, polls).2.len() == polls.len(),
        exists|k: int| #[trigger] stops_at(run_ticks(st, out, polls).2, k),
    decreases polls.len(),
{
    let msgs = handoff_sequence(bufs);
    let rest = polls.drop_first();
    let first = step(st, out, polls[0]);
    let ss = run_ticks(st, out, polls).2;
    let rs = run_ticks(first.0, first.1, rest).2;
    assert(ss == seq![first.2] + rs);
    match polls[0] {
        Poll::Empty => {
            lemma_last_buffer_wins(st, first.1, bufs, rest);
            let k1 = choose|k: int| #[trigger] stops_at(rs, k);
            assert forall|i: int| 0 <= i < k1 + 1 implies #[trigger] ss[i] == Status::Continue by {
                if i > 0 {
                    assert(ss[i] == rs[i - 1]);
                }
            }
            assert forall|i: int| k1 + 1 <= i < polls.len() implies #[trigger] ss[i] == Status::Shutdown by {
                assert(ss[i] == rs[i - 1]);
            }
            assert(stops_at(ss, k1 + 1));
        },
        Poll::Closed => {
            assert(false);
        },
        Poll::Received(m) => {
            if bufs.len() > 0 {
                assert(msgs[0] == Message::NewBuffer(bufs[0]));
                let tail = bufs.drop_first();
                assert(msgs.drop_first() =~= handoff_sequence(tail));
                lemma_last_buffer_wins(first.0, first.1, tail, rest);
                if tail.len() > 0 {
                    assert(tail.last() == bufs.last());
                }
                let k1 = choose|k: int| #[trigger] stops_at(rs, k);
                assert forall|i: int| 0 <= i < k1 + 1 implies #[trigger] ss[i] == Status::Continue by {
                    if i > 0 {
                        assert(ss[i] == rs[i - 1]);
                    }
                }
                assert forall|i: int| k1 + 1 <= i < polls.len() implies #[trigger] ss[i] == Status::Shutdown by {
                    assert(ss[i] == rs[i - 1]);
                }
                assert(stops_at(ss, k1 + 1));
            } else {
                assert(msgs[0] == Message::<S>::Shutdown);
                lemma_stopped_is_final(first.0, first.1, rest);
                assert forall|i: int| 0 <= i < polls.len() implies #[trigger] ss[i] == Status::Shutdown by {
                    if i > 0 {
                        assert(ss[i] == rs[i - 1]);
                    }
                }
                assert(stops_at(ss, 0));
            }
        },
    }
}

} // verus!
