use vstd::prelude::*;
use crate::frame::Frame;
use crate::heartbeat::{
    Heartbeat,
    HeartbeatState,
    poll_all,
    every_interval,
    lemma_heartbeat_at_most_once_per_interval,
    lemma_heartbeat_fires_every_interval,
};
use crate::outcome::SessionOutcome;
use crate::queue::{QueueState, offer_all, pull_n, lemma_fifo};

verus! {

/// What the sender pump learns on each iteration.
pub enum SenderEvent {
    /// A frame was pulled from the outbound queue.
    Queued(Frame),
    /// The heartbeat timer woke the pump at this time, in milliseconds.
    Tick(u64),
    /// The last write completed within the write timeout.
    Written,
    /// The outbound queue is drained and its producer side is closed.
    QueueClosed,
    /// The last write did not complete within the write timeout.
    WriteTimedOut,
    /// The last write failed, with the transport's message.
    WriteFailed(String),
}

/// What the sender pump asks of the writer half.
pub enum SenderAction {
    /// Write this frame, under the write timeout.
    Write(Frame),
    /// Write a heartbeat ping with an empty payload, under the write timeout.
    Heartbeat,
    /// Nothing to write: wait for the next event.
    Wait,
    /// The pump is done: attempt one best-effort close and report this outcome.
    Finish(SessionOutcome),
}

pub open spec fn is_finishing(e: SenderEvent) -> bool {
    e is QueueClosed || e is WriteTimedOut || e is WriteFailed
}

/// The abstract state of a sender pump.
pub struct SenderState {
    pub heartbeat: HeartbeatState,
    pub finished: bool,
}

impl SenderState {
    /// One iteration: queued frames are written as they come; ticks write a
    /// ping when the heartbeat is due; a closed queue, a write timeout or a
    /// write failure ends the pump, which then ignores everything.
    pub open spec fn step(self, e: SenderEvent) -> (SenderState, SenderAction) {
        if self.finished {
            (self, SenderAction::Wait)
        } else {
            match e {
                SenderEvent::Queued(f) => (self, SenderAction::Write(f)),
                SenderEvent::Tick(now) => if self.heartbeat.is_due(now as nat) {
                    (
                        SenderState { heartbeat: self.heartbeat.polled(now as nat), ..self },
                        SenderAction::Heartbeat,
                    )
                } else {
                    (self, SenderAction::Wait)
                },
                SenderEvent::Written => (self, SenderAction::Wait),
                SenderEvent::QueueClosed => (
                    SenderState { finished: true, ..self },
                    SenderAction::Finish(SessionOutcome::ClosedNormally),
                ),
                SenderEvent::WriteTimedOut => (
                    SenderState { finished: true, ..self },
                    SenderAction::Finish(SessionOutcome::WriteTimeout),
                ),
                SenderEvent::WriteFailed(d) => (
                    SenderState { finished: true, ..self },
                    SenderAction::Finish(SessionOutcome::TransportError(d)),
                ),
            }
        }
    }
}

/// Drains the outbound queue into the writer half, interleaved with heartbeat
/// pings. It owns the writer half alone.
pub struct SenderPump {
    heartbeat: Heartbeat,
    finished: bool,
}

impl View for SenderPump {
    type V = SenderState;

    closed spec fn view(&self) -> SenderState {
        SenderState { heartbeat: self.heartbeat@, finished: self.finished }
    }
}

impl SenderPump {
    /// A live pump whose first heartbeat is due at `start_ms`.
    pub fn new(start_ms: u64, heartbeat_interval_ms: u64) -> (p: SenderPump)
        requires
            heartbeat_interval_ms > 0,
        ensures
            p@ == (SenderState {
                heartbeat: HeartbeatState {
                    interval: heartbeat_interval_ms as nat,
                    next_due: start_ms as nat,
                    fired: 0,
                },
                finished: false,
            }),
    {
        SenderPump { heartbeat: Heartbeat::new(start_ms, heartbeat_interval_ms), finished: false }
    }

    pub fn on_event(&mut self, e: SenderEvent) -> (a: SenderAction)
        ensures
            (final(self)@, a) == old(self)@.step(e),
    {
        if self.finished {
            return SenderAction::Wait;
        }
        match e {
            SenderEvent::Queued(f) => SenderAction::Write(f),
            SenderEvent::Tick(now) => {
                if self.heartbeat.poll(now) {
                    SenderAction::Heartbeat
                } else {
                    SenderAction::Wait
                }
            },
            SenderEvent::Written => SenderAction::Wait,
            SenderEvent::QueueClosed => {
                self.finished = true;
                SenderAction::Finish(SessionOutcome::ClosedNormally)
            },
            SenderEvent::WriteTimedOut => {
                self.finished = true;
                SenderAction::Finish(SessionOutcome::WriteTimeout)
            },
            SenderEvent::WriteFailed(d) => {
                self.finished = true;
                SenderAction::Finish(SessionOutcome::TransportError(d))
            },
        }
    }

    pub fn is_finished(&self) -> (b: bool)
        ensures
            b == self@.finished,
    {
        self.finished
    }

    /// The number of heartbeat pings asked for so far.
    pub fn pings_sent(&self) -> (n: u64)
        ensures
            n == self@.heartbeat.fired,
    {
        self.heartbeat.fired()
    }
}

/// The state and the actions after feeding `es` to a pump in `s`.
pub open spec fn run(s: SenderState, es: Seq<SenderEvent>) -> (SenderState, Seq<SenderAction>)
    decreases es.len(),
{
    if es.len() == 0 {
        (s, Seq::empty())
    } else {
        let (t, acts) = run(s, es.drop_last());
        let (u, a) = t.step(es.last());
        (u, acts.push(a))
    }
}

/// The frames of the `Write` actions, in order.
pub open spec fn written(acts: Seq<SenderAction>) -> Seq<Frame>
    decreases acts.len(),
{
    if acts.len() == 0 {
        Seq::empty()
    } else {
        match acts.last() {
            SenderAction::Write(f) => written(acts.drop_last()).push(f),
            _ => written(acts.drop_last()),
        }
    }
}

/// The number of heartbeat pings among the actions.
pub open spec fn pings(acts: Seq<SenderAction>) -> nat
    decreases acts.len(),
{
    if acts.len() == 0 {
        0
    } else {
        pings(acts.drop_last()) + if acts.last() is Heartbeat {
            1nat
        } else {
            0nat
        }
    }
}

/// The frames of the `Queued` events, in order.
pub open spec fn queued(es: Seq<SenderEvent>) -> Seq<Frame>
    decreases es.len(),
{
    if es.len() == 0 {
        Seq::empty()
    } else {
        match es.last() {
            SenderEvent::Queued(f) => queued(es.drop_last()).push(f),
            _ => queued(es.drop_last()),
        }
    }
}

/// The times of the `Tick` events, in order.
pub open spec fn tick_times(es: Seq<SenderEvent>) -> Seq<nat>
    decreases es.len(),
{
    if es.len() == 0 {
        Seq::empty()
    } else {
        match es.last() {
            SenderEvent::Tick(t) => tick_times(es.drop_last()).push(t as nat),
            _ => tick_times(es.drop_last()),
        }
    }
}

/// A live pump writes the queued frames in the order it pulled them, whatever
/// heartbeat pings come between them.
pub proof fn lemma_sender_keeps_queue_order(s: SenderState, es: Seq<SenderEvent>)
    requires
        !s.finished,
        forall|i: int| 0 <= i < es.len() ==> !is_finishing(#[trigger] es[i]),
    ensures
        written(run(s, es).1) == queued(es),
        !run(s, es).0.finished,
    decreases es.len(),
{
    if es.len() > 0 {
        let pre = es.drop_last();
        assert forall|i: int| 0 <= i < pre.len() implies !is_finishing(#[trigger] pre[i]) by {
            assert(pre[i] == es[i]);
        }
        lemma_sender_keeps_queue_order(s, pre);
        assert(!is_finishing(es[es.len() - 1]));
        let (t, acts) = run(s, pre);
        let (u, a) = t.step(es.last());
        assert(acts.push(a).drop_last() =~= acts);
    }
}

/// While a pump runs, its heartbeat depends on the tick times alone: queued
/// traffic neither delays nor adds pings, and each ping is one firing of the
/// heartbeat timer.
pub proof fn lemma_pings_follow_ticks(s: SenderState, es: Seq<SenderEvent>)
    requires
        !s.finished,
        forall|i: int| 0 <= i < es.len() ==> !is_finishing(#[trigger] es[i]),
        s.heartbeat.fired + es.len() <= u64::MAX,
    ensures
        run(s, es).0.heartbeat == poll_all(s.heartbeat, tick_times(es)),
        pings(run(s, es).1) + s.heartbeat.fired == run(s, es).0.heartbeat.fired,
    decreases es.len(),
{
    if es.len() > 0 {
        let pre = es.drop_last();
        assert forall|i: int| 0 <= i < pre.len() implies !is_finishing(#[trigger] pre[i]) by {
            assert(pre[i] == es[i]);
        }
        lemma_pings_follow_ticks(s, pre);
        lemma_sender_keeps_queue_order(s, pre);
        lemma_fired_bounded(s.heartbeat, tick_times(pre));
        lemma_tick_times_len(pre);
        assert(!is_finishing(es[es.len() - 1]));
        let (t, acts) = run(s, pre);
        let (u, a) = t.step(es.last());
        assert(acts.push(a).drop_last() =~= acts);
        match es.last() {
            SenderEvent::Tick(now) => {
                assert(tick_times(es).drop_last() =~= tick_times(pre));
            },
            _ => {},
        }
    }
}

proof fn lemma_tick_times_len(es: Seq<SenderEvent>)
    ensures
        tick_times(es).len() <= es.len(),
    decreases es.len(),
{
    if es.len() > 0 {
        lemma_tick_times_len(es.drop_last());
    }
}

proof fn lemma_fired_bounded(h: HeartbeatState, times: Seq<nat>)
    requires
        h.fired <= u64::MAX,
    ensures
        poll_all(h, times).fired <= h.fired + times.len(),
        poll_all(h, times).fired >= h.fired,
    decreases times.len(),
{
    if times.len() > 0 {
        lemma_fired_bounded(h, times.drop_last());
    }
}

/// Heartbeat rate: however much traffic flows, a pump whose timer is polled
/// at times no later than `D` intervals after its first deadline sends at most
/// `D + 1` pings; and when the timer wakes it once per interval over those `D`
/// intervals, it sends exactly `D + 1`.
pub proof fn lemma_heartbeat_rate(s: SenderState, es: Seq<SenderEvent>, d: nat)
    requires
        !s.finished,
        s.heartbeat.fired == 0,
        s.heartbeat.interval > 0,
        s.heartbeat.next_due + (d + 1) * s.heartbeat.interval <= u64::MAX,
        es.len() <= u64::MAX,
        forall|i: int| 0 <= i < es.len() ==> !is_finishing(#[trigger] es[i]),
        forall|i: int|
            0 <= i < tick_times(es).len() ==> #[trigger] tick_times(es)[i]
                <= s.heartbeat.next_due + d * s.heartbeat.interval,
    ensures
        pings(run(s, es).1) <= d + 1,
        tick_times(es) == every_interval(s.heartbeat.next_due, s.heartbeat.interval, d) ==> pings(
            run(s, es).1,
        ) == d + 1,
{
    lemma_pings_follow_ticks(s, es);
    lemma_heartbeat_at_most_once_per_interval(s.heartbeat, tick_times(es), d);
    if tick_times(es) == every_interval(s.heartbeat.next_due, s.heartbeat.interval, d) {
        lemma_heartbeat_fires_every_interval(s.heartbeat, d);
    }
}

/// Ordering on the wire: frames offered to an empty queue in some order, then
/// pulled and handed to a live sender pump, are written in that order, however
/// many heartbeat pings the timer interleaves.
pub proof fn lemma_wire_order(q: QueueState, fs: Seq<Frame>, s: SenderState, es: Seq<SenderEvent>)
    requires
        q.items.len() == 0,
        !q.closed,
        fs.len() <= q.capacity,
        !s.finished,
        forall|i: int| 0 <= i < es.len() ==> !is_finishing(#[trigger] es[i]),
        queued(es) == pull_n(offer_all(q, fs), fs.len()).0,
    ensures
        written(run(s, es).1) == fs,
{
    lemma_fifo(q, fs);
    assert(q.items + fs =~= fs);
    lemma_sender_keeps_queue_order(s, es);
}

/// A finished pump is never restarted: it writes nothing more and stays
/// finished, whatever events follow.
pub proof fn lemma_finished_sender_is_inert(s: SenderState, es: Seq<SenderEvent>)
    requires
        s.finished,
    ensures
        run(s, es).0 == s,
        run(s, es).1.len() == es.len(),
        forall|i: int| 0 <= i < es.len() ==> #[trigger] run(s, es).1[i] is Wait,
    decreases es.len(),
{
    if es.len() > 0 {
        lemma_finished_sender_is_inert(s, es.drop_last());
    }
}

} // verus!
