use panorama::config::{ConfigError, SessionConfig};
use panorama::frame::{CloseInfo, Frame, FrameKind};
use panorama::heartbeat::Heartbeat;
use panorama::listener::{echo_response, echo_text, on_listener_event, ListenerAction, ListenerEvent};
use panorama::outcome::{resolve, SessionOutcome};
use panorama::queue::{BackpressurePolicy, OutboundQueue, Pull, SendError};
use panorama::receiver::{Inbound, ReceiverEvent, ReceiverPump};
use panorama::sender::{SenderAction, SenderEvent, SenderPump};
use panorama::supervisor::{PumpId, SessionState, Supervisor, SupervisorAction, SupervisorEvent};

fn text(s: &str) -> Frame {
    Frame::Text(s.to_string())
}

fn text_of(f: &Frame) -> Option<&str> {
    match f {
        Frame::Text(t) => Some(t.as_str()),
        _ => None,
    }
}

#[test]
fn fail_fast_queue_refuses_the_frame_past_capacity() {
    let mut q = OutboundQueue::new(3, BackpressurePolicy::FailFast);
    for name in ["a", "b", "c"] {
        assert!(q.send(text(name)).is_ok());
    }
    assert!(q.is_full());
    match q.send(text("d")) {
        Err(SendError::QueueFull(f)) => assert_eq!(text_of(&f), Some("d")),
        _ => panic!("the fourth frame must be refused with QueueFull"),
    }
    assert_eq!(q.len(), 3);
    match q.pull() {
        Pull::Frame(f) => assert_eq!(text_of(&f), Some("a")),
        _ => panic!("the oldest frame must come out"),
    }
    assert!(q.send(text("d")).is_ok());
    assert_eq!(q.len(), 3);
}

#[test]
fn blocking_queue_asks_the_producer_to_wait() {
    let mut q = OutboundQueue::new(1, BackpressurePolicy::Block);
    assert!(q.send(text("a")).is_ok());
    match q.send(text("b")) {
        Err(SendError::WouldBlock(f)) => assert_eq!(text_of(&f), Some("b")),
        _ => panic!("a full blocking queue must ask the producer to wait"),
    }
    assert_eq!(q.policy(), BackpressurePolicy::Block);
    assert_eq!(q.capacity(), 1);
}

#[test]
fn closed_queue_drains_then_reports_closed() {
    let mut q = OutboundQueue::new(4, BackpressurePolicy::Block);
    assert!(matches!(q.pull(), Pull::Empty));
    assert!(q.send(text("last")).is_ok());
    q.close();
    assert!(q.is_closed());
    assert!(matches!(q.send(text("late")), Err(SendError::Closed(_))));
    assert!(matches!(q.pull(), Pull::Frame(Frame::Text(_))));
    assert!(matches!(q.pull(), Pull::Closed));
}

#[test]
fn frames_reach_the_wire_in_queue_order_between_pings() {
    let mut q = OutboundQueue::new(8, BackpressurePolicy::Block);
    let mut pump = SenderPump::new(0, 100);
    for name in ["A", "B", "C"] {
        assert!(q.send(text(name)).is_ok());
    }
    let mut wire: Vec<String> = Vec::new();
    let mut now: u64 = 0;
    loop {
        if let SenderAction::Heartbeat = pump.on_event(SenderEvent::Tick(now)) {
            wire.push("<ping>".to_string());
        }
        now += 100;
        match q.pull() {
            Pull::Frame(f) => match pump.on_event(SenderEvent::Queued(f)) {
                SenderAction::Write(w) => wire.push(text_of(&w).unwrap().to_string()),
                _ => panic!("a live pump writes every queued frame"),
            },
            _ => break,
        }
    }
    let frames: Vec<&String> = wire.iter().filter(|w| w.as_str() != "<ping>").collect();
    assert_eq!(frames, vec!["A", "B", "C"]);
    assert!(wire.iter().any(|w| w == "<ping>"));
}

#[test]
fn heartbeat_fires_once_per_interval() {
    let mut h = Heartbeat::new(0, 100);
    assert!(h.poll(0));
    assert!(!h.poll(50));
    assert!(h.poll(100));
    assert!(!h.poll(150));
    assert!(h.poll(200));
    assert!(h.poll(300));
    assert_eq!(h.fired(), 4);
    assert_eq!(h.next_due(), 400);
    assert_eq!(h.interval(), 100);
}

#[test]
fn heartbeat_count_ignores_message_volume() {
    // Ticks every T over D = 5 intervals, with and without heavy traffic.
    let run = |frames_per_interval: usize| -> u64 {
        let mut pump = SenderPump::new(1000, 250);
        for k in 0..=5u64 {
            for _ in 0..frames_per_interval {
                let _ = pump.on_event(SenderEvent::Queued(text("x")));
                let _ = pump.on_event(SenderEvent::Written);
            }
            let _ = pump.on_event(SenderEvent::Tick(1000 + k * 250));
            let _ = pump.on_event(SenderEvent::Tick(1000 + k * 250 + 10));
        }
        pump.pings_sent()
    };
    assert_eq!(run(0), 6);
    assert_eq!(run(50), 6);
}

#[test]
fn sender_finishes_on_write_timeout_and_stays_finished() {
    let mut pump = SenderPump::new(0, 1000);
    assert!(matches!(pump.on_event(SenderEvent::WriteTimedOut), SenderAction::Finish(SessionOutcome::WriteTimeout)));
    assert!(pump.is_finished());
    assert!(matches!(pump.on_event(SenderEvent::Queued(text("x"))), SenderAction::Wait));
    assert!(matches!(pump.on_event(SenderEvent::Tick(5000)), SenderAction::Wait));
}

#[test]
fn sender_reports_transport_failure_and_queue_close() {
    let mut pump = SenderPump::new(0, 1000);
    match pump.on_event(SenderEvent::WriteFailed("broken pipe".to_string())) {
        SenderAction::Finish(SessionOutcome::TransportError(d)) => assert_eq!(d, "broken pipe"),
        _ => panic!("a failed write ends the pump with the transport's message"),
    }
    let mut pump = SenderPump::new(0, 1000);
    assert!(matches!(pump.on_event(SenderEvent::QueueClosed), SenderAction::Finish(SessionOutcome::ClosedNormally)));
}

#[test]
fn inbound_ping_queues_exactly_one_pong() {
    let mut q = OutboundQueue::new(4, BackpressurePolicy::Block);
    let mut rx = ReceiverPump::new();
    let r = rx.on_event(ReceiverEvent::Frame(Frame::Ping(vec![1, 2, 3])), &mut q);
    assert!(matches!(r, Inbound::Replied));
    assert_eq!(q.len(), 1);
    match q.pull() {
        Pull::Frame(Frame::Pong(p)) => assert_eq!(p, vec![1, 2, 3]),
        _ => panic!("the reply must be a pong with the ping's payload"),
    }
    assert!(matches!(q.pull(), Pull::Empty));
}

#[test]
fn ping_reply_is_dropped_when_the_queue_is_full() {
    let mut q = OutboundQueue::new(1, BackpressurePolicy::Block);
    assert!(q.send(text("busy")).is_ok());
    let mut rx = ReceiverPump::new();
    let r = rx.on_event(ReceiverEvent::Frame(Frame::Ping(vec![])), &mut q);
    assert!(matches!(r, Inbound::ReplyDropped));
    assert_eq!(q.len(), 1);
}

#[test]
fn application_frames_are_delivered_and_pongs_counted() {
    let mut q = OutboundQueue::new(4, BackpressurePolicy::Block);
    let mut rx = ReceiverPump::new();
    match rx.on_event(ReceiverEvent::Frame(text("hi")), &mut q) {
        Inbound::Deliver(f) => assert_eq!(text_of(&f), Some("hi")),
        _ => panic!("text frames are surfaced"),
    }
    match rx.on_event(ReceiverEvent::Frame(Frame::Binary(vec![9])), &mut q) {
        Inbound::Deliver(Frame::Binary(b)) => assert_eq!(b, vec![9]),
        _ => panic!("binary frames are surfaced"),
    }
    assert!(matches!(rx.on_event(ReceiverEvent::Frame(Frame::Pong(vec![])), &mut q), Inbound::PongSeen));
    assert_eq!(rx.pongs_seen(), 1);
    assert_eq!(q.len(), 0);
}

#[test]
fn close_frame_ends_delivery_with_closed_by_peer() {
    let mut q = OutboundQueue::new(4, BackpressurePolicy::Block);
    let mut rx = ReceiverPump::new();
    let close = Frame::Close(Some(CloseInfo { code: 1000, reason: "bye".to_string() }));
    assert!(matches!(rx.on_event(ReceiverEvent::Frame(close), &mut q), Inbound::Finish(SessionOutcome::ClosedByPeer)));
    assert!(rx.is_finished());
    assert!(matches!(rx.on_event(ReceiverEvent::Frame(text("late")), &mut q), Inbound::Ignored));
    assert!(matches!(rx.on_event(ReceiverEvent::Frame(Frame::Ping(vec![])), &mut q), Inbound::Ignored));
    assert_eq!(q.len(), 0);

    let mut sup = Supervisor::new();
    assert!(matches!(sup.on_event(SupervisorEvent::HandshakeSucceeded), SupervisorAction::StartPumps));
    assert!(matches!(
        sup.on_event(SupervisorEvent::PumpFinished(PumpId::Receiver, SessionOutcome::ClosedByPeer)),
        SupervisorAction::Stop(PumpId::Sender)
    ));
    assert_eq!(sup.state(), SessionState::Draining);
    assert!(matches!(
        sup.on_event(SupervisorEvent::PumpFinished(PumpId::Sender, SessionOutcome::ClosedNormally)),
        SupervisorAction::Resolved(SessionOutcome::ClosedByPeer)
    ));
    assert_eq!(sup.state(), SessionState::Closed);
}

#[test]
fn read_timeout_closes_the_session_with_read_timeout() {
    let config = SessionConfig::new(1000, 50, 1000, 8, BackpressurePolicy::Block).ok().unwrap();
    let mut q = config.outbound_queue();
    let mut rx = ReceiverPump::new();
    let mut sup = Supervisor::new();
    let _ = sup.on_event(SupervisorEvent::HandshakeSucceeded);
    let outcome = match rx.on_event(ReceiverEvent::ReadTimedOut, &mut q) {
        Inbound::Finish(o) => o,
        _ => panic!("a read timeout ends the receiver pump"),
    };
    assert!(matches!(outcome, SessionOutcome::ReadTimeout));
    assert!(matches!(
        sup.on_event(SupervisorEvent::PumpFinished(PumpId::Receiver, outcome)),
        SupervisorAction::Stop(PumpId::Sender)
    ));
    // Stopping the sender closes the queue's producer side.
    q.close();
    let mut tx = config.sender_pump(0);
    assert!(matches!(q.pull(), Pull::Closed));
    let sender_outcome = match tx.on_event(SenderEvent::QueueClosed) {
        SenderAction::Finish(o) => o,
        _ => panic!("a closed queue ends the sender pump"),
    };
    assert!(matches!(
        sup.on_event(SupervisorEvent::PumpFinished(PumpId::Sender, sender_outcome)),
        SupervisorAction::Resolved(SessionOutcome::ReadTimeout)
    ));
}

#[test]
fn abnormal_outcome_wins_even_when_second() {
    let mut sup = Supervisor::new();
    let _ = sup.on_event(SupervisorEvent::HandshakeSucceeded);
    let _ = sup.on_event(SupervisorEvent::PumpFinished(PumpId::Sender, SessionOutcome::ClosedNormally));
    match sup.on_event(SupervisorEvent::PumpFinished(PumpId::Receiver, SessionOutcome::TransportError("reset".to_string()))) {
        SupervisorAction::Resolved(SessionOutcome::TransportError(d)) => assert_eq!(d, "reset"),
        _ => panic!("the abnormal outcome takes precedence"),
    }
    assert!(matches!(
        sup.on_event(SupervisorEvent::PumpFinished(PumpId::Sender, SessionOutcome::WriteTimeout)),
        SupervisorAction::Ignore
    ));
    assert!(matches!(sup.on_event(SupervisorEvent::HandshakeSucceeded), SupervisorAction::Ignore));
    assert_eq!(sup.state(), SessionState::Closed);
}

#[test]
fn duplicate_finish_while_draining_is_ignored() {
    let mut sup = Supervisor::new();
    let _ = sup.on_event(SupervisorEvent::HandshakeSucceeded);
    let _ = sup.on_event(SupervisorEvent::PumpFinished(PumpId::Sender, SessionOutcome::WriteTimeout));
    assert!(matches!(
        sup.on_event(SupervisorEvent::PumpFinished(PumpId::Sender, SessionOutcome::ClosedNormally)),
        SupervisorAction::Ignore
    ));
    assert!(matches!(
        sup.on_event(SupervisorEvent::PumpFinished(PumpId::Receiver, SessionOutcome::ReadTimeout)),
        SupervisorAction::Resolved(SessionOutcome::WriteTimeout)
    ));
}

#[test]
fn failed_handshake_closes_with_transport_error() {
    let mut sup = Supervisor::new();
    assert_eq!(sup.state(), SessionState::Handshaking);
    match sup.on_event(SupervisorEvent::HandshakeFailed("refused".to_string())) {
        SupervisorAction::Resolved(SessionOutcome::TransportError(d)) => assert_eq!(d, "refused"),
        _ => panic!("a failed handshake closes the session"),
    }
    assert_eq!(sup.state(), SessionState::Closed);
}

#[test]
fn resolve_prefers_first_abnormal_then_first() {
    assert!(matches!(resolve(SessionOutcome::ClosedByPeer, SessionOutcome::ClosedNormally), SessionOutcome::ClosedByPeer));
    assert!(matches!(resolve(SessionOutcome::ClosedNormally, SessionOutcome::ReadTimeout), SessionOutcome::ReadTimeout));
    assert!(matches!(resolve(SessionOutcome::WriteTimeout, SessionOutcome::ReadTimeout), SessionOutcome::WriteTimeout));
    assert!(SessionOutcome::ReadTimeout.is_abnormal());
    assert!(!SessionOutcome::ClosedByPeer.is_abnormal());
}

#[test]
fn echo_listener_answers_ping_with_ping_ret() {
    // Server side: the echo consumer answers the client's text.
    let reply = echo_response(&text("ping")).expect("text frames are answered");
    assert_eq!(text_of(&reply), Some("ping_ret"));
    assert!(echo_response(&Frame::Binary(vec![1])).is_none());
    assert_eq!(echo_text(""), "_ret");

    // Client side: the server's frame travels through the client's receiver pump.
    let mut q = OutboundQueue::new(4, BackpressurePolicy::Block);
    let mut rx = ReceiverPump::new();
    match rx.on_event(ReceiverEvent::Frame(reply), &mut q) {
        Inbound::Deliver(f) => assert_eq!(text_of(&f), Some("ping_ret")),
        _ => panic!("the echoed text is the next delivered message"),
    }
}

#[test]
fn idle_peers_with_fast_heartbeats_see_pongs_and_close_normally() {
    let config = SessionConfig::new(100, 1000, 1000, 16, BackpressurePolicy::Block).ok().unwrap();
    // Two sides, each with a sender pump, a receiver pump and an outbound queue.
    let mut client_tx = config.sender_pump(0);
    let mut server_tx = config.sender_pump(0);
    let mut client_q = config.outbound_queue();
    let mut server_q = config.outbound_queue();
    let mut client_rx = ReceiverPump::new();
    let mut server_rx = ReceiverPump::new();
    let mut now: u64 = 0;
    while now <= 350 {
        if let SenderAction::Heartbeat = client_tx.on_event(SenderEvent::Tick(now)) {
            let _ = server_rx.on_event(ReceiverEvent::Frame(Frame::Ping(vec![])), &mut server_q);
        }
        if let SenderAction::Heartbeat = server_tx.on_event(SenderEvent::Tick(now)) {
            let _ = client_rx.on_event(ReceiverEvent::Frame(Frame::Ping(vec![])), &mut client_q);
        }
        while let Pull::Frame(f) = server_q.pull() {
            if let SenderAction::Write(w) = server_tx.on_event(SenderEvent::Queued(f)) {
                let _ = client_rx.on_event(ReceiverEvent::Frame(w), &mut client_q);
            }
        }
        while let Pull::Frame(f) = client_q.pull() {
            if let SenderAction::Write(w) = client_tx.on_event(SenderEvent::Queued(f)) {
                let _ = server_rx.on_event(ReceiverEvent::Frame(w), &mut server_q);
            }
        }
        now += 10;
    }
    assert!(client_rx.pongs_seen() >= 3);
    assert!(server_rx.pongs_seen() >= 3);
    assert!(!client_rx.is_finished());

    // The harness ends the client session.
    let mut sup = Supervisor::new();
    let _ = sup.on_event(SupervisorEvent::HandshakeSucceeded);
    client_q.close();
    assert!(matches!(client_q.pull(), Pull::Closed));
    let sent = match client_tx.on_event(SenderEvent::QueueClosed) {
        SenderAction::Finish(o) => o,
        _ => panic!("a closed queue ends the sender pump"),
    };
    assert!(matches!(sup.on_event(SupervisorEvent::PumpFinished(PumpId::Sender, sent)), SupervisorAction::Stop(PumpId::Receiver)));
    let received = match client_rx.on_event(ReceiverEvent::Stopped, &mut client_q) {
        Inbound::Finish(o) => o,
        _ => panic!("a stopped receiver pump finishes"),
    };
    assert!(matches!(
        sup.on_event(SupervisorEvent::PumpFinished(PumpId::Receiver, received)),
        SupervisorAction::Resolved(SessionOutcome::ClosedNormally)
    ));
}

#[test]
fn config_names_the_first_zero_option() {
    assert!(matches!(SessionConfig::new(0, 1, 1, 1, BackpressurePolicy::Block), Err(ConfigError::ZeroHeartbeatInterval)));
    assert!(matches!(SessionConfig::new(1, 0, 0, 0, BackpressurePolicy::Block), Err(ConfigError::ZeroReadTimeout)));
    assert!(matches!(SessionConfig::new(1, 1, 0, 1, BackpressurePolicy::Block), Err(ConfigError::ZeroWriteTimeout)));
    assert!(matches!(SessionConfig::new(1, 1, 1, 0, BackpressurePolicy::FailFast), Err(ConfigError::ZeroQueueCapacity)));
    let c = SessionConfig::new(5000, 5000, 5000, 100, BackpressurePolicy::FailFast).ok().unwrap();
    assert_eq!(c.outbound_queue_capacity, 100);
    assert_eq!(c.outbound_queue().capacity(), 100);
    let s = SessionConfig::standard();
    assert_eq!(s.heartbeat_interval_ms, 5000);
    assert_eq!(s.read_timeout_ms, 15000);
    assert_eq!(s.write_timeout_ms, 5000);
    assert_eq!(s.outbound_queue_capacity, 32);
    assert_eq!(s.backpressure_policy, BackpressurePolicy::Block);
}

#[test]
fn listener_keeps_accepting_after_a_failed_handshake() {
    assert!(matches!(on_listener_event(ListenerEvent::Connected), ListenerAction::Handshake));
    assert!(matches!(on_listener_event(ListenerEvent::HandshakeSucceeded), ListenerAction::SpawnSession));
    match on_listener_event(ListenerEvent::HandshakeFailed("bad upgrade".to_string())) {
        ListenerAction::LogAndContinue(d) => assert_eq!(d, "bad upgrade"),
        _ => panic!("a failed handshake must not stop the listener"),
    }
    match on_listener_event(ListenerEvent::AcceptFailed("too many files".to_string())) {
        ListenerAction::Fail(d) => assert_eq!(d, "too many files"),
        _ => panic!("an accept error is fatal"),
    }
}

#[test]
fn frame_kinds() {
    assert_eq!(text("a").kind(), FrameKind::Text);
    assert_eq!(Frame::Close(None).kind(), FrameKind::Close);
    assert_eq!(Frame::Pong(vec![]).kind(), FrameKind::Pong);
    assert!(Frame::Binary(vec![]).is_application());
    assert!(!Frame::Ping(vec![]).is_application());
}

#[test]
fn sender_waits_between_writes_and_before_the_heartbeat_is_due() {
    let mut pump = SenderPump::new(500, 100);
    assert!(matches!(pump.on_event(SenderEvent::Tick(499)), SenderAction::Wait));
    assert!(matches!(pump.on_event(SenderEvent::Written), SenderAction::Wait));
    assert!(matches!(pump.on_event(SenderEvent::Tick(500)), SenderAction::Heartbeat));
    assert!(matches!(pump.on_event(SenderEvent::Tick(550)), SenderAction::Wait));
    assert_eq!(pump.pings_sent(), 1);
    match pump.on_event(SenderEvent::Queued(Frame::Binary(vec![7, 8]))) {
        SenderAction::Write(Frame::Binary(b)) => assert_eq!(b, vec![7, 8]),
        _ => panic!("the queued frame itself is written"),
    }
}

#[test]
fn receiver_ends_on_read_failure_and_stream_end() {
    let mut q = OutboundQueue::new(2, BackpressurePolicy::FailFast);
    let mut rx = ReceiverPump::new();
    match rx.on_event(ReceiverEvent::ReadFailed("reset by peer".to_string()), &mut q) {
        Inbound::Finish(SessionOutcome::TransportError(d)) => assert_eq!(d, "reset by peer"),
        _ => panic!("a read failure ends the pump with the transport's message"),
    }
    let mut rx = ReceiverPump::new();
    assert!(matches!(rx.on_event(ReceiverEvent::Ended, &mut q), Inbound::Finish(SessionOutcome::ClosedByPeer)));
    let mut rx = ReceiverPump::new();
    assert!(matches!(rx.on_event(ReceiverEvent::Stopped, &mut q), Inbound::Finish(SessionOutcome::ClosedNormally)));
}
