use audio_handoff::buffer::{FixedBuffer, BUFFER_LEN};
use audio_handoff::channel::handoff_channel;
use audio_handoff::control::ControlEndpoint;
use audio_handoff::message::{ChannelError, Message, Poll, Status};
use audio_handoff::realtime::{RealtimeEndpoint, RealtimeState};

fn sine(volume: f32) -> FixedBuffer<f32> {
    let step = (1.0 / 64.0) * 2.0 * std::f32::consts::PI;
    let mut v = Vec::new();
    for i in 0..64 {
        v.push((step * i as f32).sin() * volume);
    }
    FixedBuffer::from_vec(&v).unwrap()
}

fn numbered(k: i32) -> FixedBuffer<i32> {
    let mut v = Vec::new();
    for i in 0..64 {
        v.push(k * 1000 + i);
    }
    FixedBuffer::from_vec(&v).unwrap()
}

#[test]
fn filled_buffer_holds_one_value() {
    let b = FixedBuffer::filled(7u8);
    assert_eq!(b.samples, [7u8; 64]);
    assert_eq!(b.sample(63), 7);
}

#[test]
fn from_vec_keeps_order_and_needs_exact_length() {
    let b = numbered(2);
    assert_eq!(b.sample(0), 2000);
    assert_eq!(b.sample(1), 2001);
    assert_eq!(b.sample(BUFFER_LEN - 1), 2063);
    assert!(FixedBuffer::from_vec(&vec![0i32; 63]).is_none());
    assert!(FixedBuffer::from_vec(&vec![0i32; 65]).is_none());
    assert!(FixedBuffer::<i32>::from_vec(&Vec::new()).is_none());
}

#[test]
fn tick_before_any_message_leaves_output_untouched() {
    let (_tx, rx) = handoff_channel::<f32>(0);
    let mut rt = RealtimeEndpoint::new(rx);
    let mut out = FixedBuffer::filled(0.25f32);
    for _ in 0..10 {
        assert_eq!(rt.tick(&mut out), Status::Continue);
        assert_eq!(out.samples, [0.25f32; 64]);
    }
    assert!(rt.current().is_none());
    assert!(!rt.is_stopped());
}

#[test]
fn apply_on_empty_without_buffer_keeps_output() {
    let mut st = RealtimeState::<i32>::new();
    let mut out = numbered(9);
    assert_eq!(st.apply(Poll::Empty, &mut out), Status::Continue);
    assert_eq!(out.samples, numbered(9).samples);
    assert!(st.current.is_none());
}

#[test]
fn apply_adopts_and_replays_new_buffer() {
    let mut st = RealtimeState::<i32>::new();
    let mut out = FixedBuffer::filled(0);
    assert_eq!(st.apply(Poll::Received(Message::NewBuffer(numbered(1))), &mut out), Status::Continue);
    assert_eq!(out.samples, numbered(1).samples);
    let mut other = FixedBuffer::filled(5);
    assert_eq!(st.apply(Poll::Empty, &mut other), Status::Continue);
    assert_eq!(other.samples, numbered(1).samples);
}

#[test]
fn apply_shutdown_does_not_write_output() {
    let mut st = RealtimeState::<i32>::new();
    let mut out = FixedBuffer::filled(0);
    st.apply(Poll::Received(Message::NewBuffer(numbered(1))), &mut out);
    let mut fresh = FixedBuffer::filled(-1);
    assert_eq!(st.apply(Poll::Received(Message::Shutdown), &mut fresh), Status::Shutdown);
    assert_eq!(fresh.samples, [-1; 64]);
    assert!(st.stopped);
    assert_eq!(st.current.unwrap().samples, numbered(1).samples);
}

#[test]
fn one_message_per_tick_when_backlogged() {
    let (tx, rx) = handoff_channel::<i32>(4);
    let mut ctl = ControlEndpoint::new(tx);
    assert_eq!(ctl.run(&vec![numbered(1), numbered(2), numbered(3)]), Ok(()));
    let mut rt = RealtimeEndpoint::new(rx);
    let mut out = FixedBuffer::filled(0);
    assert_eq!(rt.tick(&mut out), Status::Continue);
    assert_eq!(out.sample(0), 1000);
    assert_eq!(rt.tick(&mut out), Status::Continue);
    assert_eq!(out.sample(0), 2000);
    assert_eq!(rt.tick(&mut out), Status::Continue);
    assert_eq!(out.sample(0), 3000);
    assert_eq!(rt.tick(&mut out), Status::Shutdown);
}

#[test]
fn last_buffer_is_current_at_shutdown() {
    let (tx, rx) = handoff_channel::<i32>(8);
    let mut ctl = ControlEndpoint::new(tx);
    let bufs: Vec<FixedBuffer<i32>> = (1..=6).map(numbered).collect();
    assert_eq!(ctl.run(&bufs), Ok(()));
    let mut rt = RealtimeEndpoint::new(rx);
    let mut out = FixedBuffer::filled(0);
    let mut ticks = 0;
    while rt.tick(&mut out) == Status::Continue {
        ticks += 1;
    }
    assert_eq!(ticks, 6);
    assert!(rt.is_stopped());
    assert_eq!(rt.current().unwrap().samples, numbered(6).samples);
}

#[test]
fn closed_channel_counts_as_shutdown() {
    let (tx, rx) = handoff_channel::<i32>(2);
    let mut rt = RealtimeEndpoint::new(rx);
    let mut out = FixedBuffer::filled(0);
    assert_eq!(rt.tick(&mut out), Status::Continue);
    drop(tx);
    assert_eq!(rt.tick(&mut out), Status::Shutdown);
    assert!(rt.is_stopped());
    assert_eq!(out.samples, [0; 64]);
}

#[test]
fn closed_channel_is_drained_before_it_stops() {
    let (mut tx, rx) = handoff_channel::<i32>(2);
    assert_eq!(tx.send(Message::NewBuffer(numbered(4))), Ok(()));
    drop(tx);
    let mut rt = RealtimeEndpoint::new(rx);
    let mut out = FixedBuffer::filled(0);
    assert_eq!(rt.tick(&mut out), Status::Continue);
    assert_eq!(out.samples, numbered(4).samples);
    assert_eq!(rt.tick(&mut out), Status::Shutdown);
}

#[test]
fn ticks_after_shutdown_keep_answering_shutdown() {
    let (mut tx, rx) = handoff_channel::<i32>(4);
    assert_eq!(tx.send(Message::NewBuffer(numbered(1))), Ok(()));
    assert_eq!(tx.send(Message::Shutdown), Ok(()));
    let mut rt = RealtimeEndpoint::new(rx);
    let mut out = FixedBuffer::filled(0);
    assert_eq!(rt.tick(&mut out), Status::Continue);
    assert_eq!(rt.tick(&mut out), Status::Shutdown);
    let mut after = FixedBuffer::filled(3);
    for _ in 0..20 {
        assert_eq!(rt.tick(&mut after), Status::Shutdown);
        assert_eq!(after.samples, [3; 64]);
    }
    drop(tx);
    assert_eq!(rt.tick(&mut after), Status::Shutdown);
    assert_eq!(rt.current().unwrap().samples, numbered(1).samples);
}

#[test]
fn five_volumes_then_shutdown() {
    let (tx, rx) = handoff_channel::<f32>(6);
    let mut ctl = ControlEndpoint::new(tx);
    let bufs: Vec<FixedBuffer<f32>> = (0..5).map(|i| sine(i as f32 / 10.0)).collect();
    assert_eq!(ctl.run(&bufs), Ok(()));
    assert!(ctl.has_sent_shutdown());
    let mut rt = RealtimeEndpoint::new(rx);
    let mut out = FixedBuffer::filled(0.0f32);
    let mut seen = Vec::new();
    let mut events = 0;
    loop {
        events += 1;
        match rt.tick(&mut out) {
            Status::Continue => seen.push(out.sample(1)),
            Status::Shutdown => break,
        }
    }
    assert_eq!(events, 6);
    let step = (1.0f32 / 64.0) * 2.0 * std::f32::consts::PI;
    let expected: Vec<f32> = (0..5).map(|i| step.sin() * (i as f32 / 10.0)).collect();
    assert_eq!(seen, expected);
    assert_eq!(seen[0], 0.0);
    assert!((seen[4] - 0.4 * (std::f32::consts::PI / 32.0).sin()).abs() < 1e-6);
}

#[test]
fn rendezvous_consumer_never_waits() {
    let (mut tx, rx) = handoff_channel::<i32>(0);
    let mut rt = RealtimeEndpoint::new(rx);
    let mut out = FixedBuffer::filled(0);
    assert_eq!(tx.try_send(Message::NewBuffer(numbered(1))), Err(ChannelError::Full));
    for _ in 0..1000 {
        assert_eq!(rt.tick(&mut out), Status::Continue);
        assert_eq!(out.samples, [0; 64]);
    }
    assert!(!tx.has_sent_shutdown());
}

#[test]
fn fast_ticks_replay_previous_buffer() {
    let (mut tx, rx) = handoff_channel::<i32>(1);
    let mut rt = RealtimeEndpoint::new(rx);
    let mut out = FixedBuffer::filled(0);
    assert_eq!(tx.try_send(Message::NewBuffer(numbered(7))), Ok(()));
    assert_eq!(tx.try_send(Message::NewBuffer(numbered(8))), Err(ChannelError::Full));
    assert_eq!(rt.tick(&mut out), Status::Continue);
    for _ in 0..1000 {
        out = FixedBuffer::filled(-5);
        assert_eq!(rt.tick(&mut out), Status::Continue);
        assert_eq!(out.samples, numbered(7).samples);
    }
    assert_eq!(tx.try_send(Message::NewBuffer(numbered(8))), Ok(()));
    assert_eq!(rt.tick(&mut out), Status::Continue);
    assert_eq!(out.samples, numbered(8).samples);
}

#[test]
fn control_stops_when_realtime_side_is_gone() {
    let (tx, rx) = handoff_channel::<i32>(1);
    drop(rx);
    let mut ctl = ControlEndpoint::new(tx);
    assert_eq!(ctl.run(&vec![numbered(1), numbered(2)]), Err(ChannelError::Closed));
    assert!(!ctl.has_sent_shutdown());
}

#[test]
fn send_to_gone_consumer_is_closed() {
    let (mut tx, rx) = handoff_channel::<i32>(1);
    drop(rx);
    assert_eq!(tx.send(Message::Shutdown), Err(ChannelError::Closed));
    assert_eq!(tx.try_send(Message::Shutdown), Err(ChannelError::Closed));
    assert!(!tx.has_sent_shutdown());
}

#[test]
fn receive_is_fifo_and_tells_empty_from_closed() {
    let (mut tx, rx) = handoff_channel::<i32>(3);
    assert!(matches!(rx.try_receive(), Poll::Empty));
    assert_eq!(tx.send(Message::NewBuffer(numbered(1))), Ok(()));
    assert_eq!(tx.send(Message::NewBuffer(numbered(2))), Ok(()));
    assert_eq!(tx.send(Message::Shutdown), Ok(()));
    assert!(tx.has_sent_shutdown());
    match rx.try_receive() {
        Poll::Received(Message::NewBuffer(b)) => assert_eq!(b.sample(0), 1000),
        _ => panic!("expected the first buffer"),
    }
    match rx.try_receive() {
        Poll::Received(Message::NewBuffer(b)) => assert_eq!(b.sample(0), 2000),
        _ => panic!("expected the second buffer"),
    }
    assert!(matches!(rx.try_receive(), Poll::Received(Message::Shutdown)));
    assert!(matches!(rx.try_receive(), Poll::Empty));
    drop(tx);
    assert!(matches!(rx.try_receive(), Poll::Closed));
}
