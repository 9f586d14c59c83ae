use vstd::prelude::*;

verus! {

/// `a + b`, held at the largest `u64`.
pub open spec fn sat_add(a: nat, b: nat) -> nat {
    if a + b > u64::MAX {
        u64::MAX as nat
    } else {
        a + b
    }
}

/// The abstract state of a heartbeat timer: times are in milliseconds.
pub struct HeartbeatState {
    pub interval: nat,
    pub next_due: nat,
    pub fired: nat,
}

impl HeartbeatState {
    pub open spec fn is_due(self, now: nat) -> bool {
        now >= self.next_due
    }

    /// Polling at `now` fires when the next deadline has come, and moves that
    /// deadline one interval on.
    pub open spec fn polled(self, now: nat) -> HeartbeatState {
        if self.is_due(now) {
            HeartbeatState {
                next_due: sat_add(self.next_due, self.interval),
                fired: sat_add(self.fired, 1),
                ..self
            }
        } else {
            self
        }
    }
}

/// The timer that paces heartbeat pings: it fires at `start`, `start + T`,
/// `start + 2T`, ..., whatever other traffic flows.
pub struct Heartbeat {
    interval_ms: u64,
    next_due_ms: u64,
    fired: u64,
}

impl View for Heartbeat {
    type V = HeartbeatState;

    closed spec fn view(&self) -> HeartbeatState {
        HeartbeatState {
            interval: self.interval_ms as nat,
            next_due: self.next_due_ms as nat,
            fired: self.fired as nat,
        }
    }
}

impl Heartbeat {
    /// A timer with period `interval_ms` whose first tick is due at `start_ms`.
    pub fn new(start_ms: u64, interval_ms: u64) -> (h: Heartbeat)
        requires
            interval_ms > 0,
        ensures
            h@ == (HeartbeatState { interval: interval_ms as nat, next_due: start_ms as nat, fired: 0 }),
    {
        Heartbeat { interval_ms, next_due_ms: start_ms, fired: 0 }
    }

    pub fn is_due(&self, now_ms: u64) -> (b: bool)
        ensures
            b == self@.is_due(now_ms as nat),
    {
        now_ms >= self.next_due_ms
    }

    /// Fires if the next tick is due at `now_ms`; says whether it fired.
    pub fn poll(&mut self, now_ms: u64) -> (fired: bool)
        ensures
            final(self)@ == old(self)@.polled(now_ms as nat),
            fired == old(self)@.is_due(now_ms as nat),
    {
        if now_ms >= self.next_due_ms {
            self.next_due_ms = self.next_due_ms.saturating_add(self.interval_ms);
            self.fired = self.fired.saturating_add(1);
            true
        } else {
            false
        }
    }

    pub fn fired(&self) -> (n: u64)
        ensures
            n == self@.fired,
    {
        self.fired
    }

    pub fn next_due(&self) -> (t: u64)
        ensures
            t == self@.next_due,
    {
        self.next_due_ms
    }

    pub fn interval(&self) -> (t: u64)
        ensures
            t == self@.interval,
    {
        self.interval_ms
    }
}

/// The timer's state after polling at each of `times` in turn.
pub open spec fn poll_all(h: HeartbeatState, times: Seq<nat>) -> HeartbeatState
    decreases times.len(),
{
    if times.len() == 0 {
        h
    } else {
        poll_all(h, times.drop_last()).polled(times.last())
    }
}

/// The tick times `start, start + T, ..., start + D*T`.
pub open spec fn every_interval(start: nat, interval: nat, d: nat) -> Seq<nat> {
    Seq::new(d + 1, |k: int| (start + k * interval) as nat)
}

proof fn lemma_poll_all_tracks_deadline(h: HeartbeatState, times: Seq<nat>, d: nat)
    requires
        h.interval > 0,
        h.fired == 0,
        h.next_due + (d + 1) * h.interval <= u64::MAX,
        forall|i: int| 0 <= i < times.len() ==> times[i] <= h.next_due + d * h.interval,
    ensures
        poll_all(h, times).fired <= d + 1,
        poll_all(h, times).next_due == h.next_due + poll_all(h, times).fired * h.interval,
        poll_all(h, times).interval == h.interval,
    decreases times.len(),
{
    if times.len() > 0 {
        let pre = times.drop_last();
        lemma_poll_all_tracks_deadline(h, pre, d);
        let g = poll_all(h, pre);
        let now = times.last();
        assert(now <= h.next_due + d * h.interval);
        if g.is_due(now) {
            assert(g.fired <= d) by (nonlinear_arith)
                requires
                    h.next_due + g.fired * h.interval <= now,
                    now <= h.next_due + d * h.interval,
                    h.interval > 0,
            ;
            assert(h.next_due + (g.fired + 1) * h.interval <= u64::MAX && g.fired + 1 <= u64::MAX)
                by (nonlinear_arith)
                requires
                    g.fired <= d,
                    h.interval > 0,
                    h.next_due + (d + 1) * h.interval <= u64::MAX,
            ;
            assert((g.fired + 1) * h.interval == g.fired * h.interval + h.interval) by (
            nonlinear_arith);
        }
    } else {
        assert(0 * h.interval == 0) by (nonlinear_arith);
    }
}

/// A timer polled at any times up to `D` intervals after its first deadline
/// fires at most `D + 1` times, however often it is polled.
pub proof fn lemma_heartbeat_at_most_once_per_interval(h: HeartbeatState, times: Seq<nat>, d: nat)
    requires
        h.interval > 0,
        h.fired == 0,
        h.next_due + (d + 1) * h.interval <= u64::MAX,
        forall|i: int| 0 <= i < times.len() ==> times[i] <= h.next_due + d * h.interval,
    ensures
        poll_all(h, times).fired <= d + 1,
{
    lemma_poll_all_tracks_deadline(h, times, d);
}

/// A timer polled once per interval from its first deadline, over `D`
/// intervals, fires at every poll: `D + 1` times.
pub proof fn lemma_heartbeat_fires_every_interval(h: HeartbeatState, d: nat)
    requires
        h.interval > 0,
        h.fired == 0,
        h.next_due + (d + 1) * h.interval <= u64::MAX,
    ensures
        poll_all(h, every_interval(h.next_due, h.interval, d)).fired == d + 1,
    decreases d,
{
    lemma_every_interval_prefix(h, d);
}

proof fn lemma_every_interval_prefix(h: HeartbeatState, d: nat)
    requires
        h.interval > 0,
        h.fired == 0,
        h.next_due + (d + 1) * h.interval <= u64::MAX,
    ensures
        poll_all(h, every_interval(h.next_due, h.interval, d)).fired == d + 1,
        poll_all(h, every_interval(h.next_due, h.interval, d)).next_due == h.next_due + (d + 1)
            * h.interval,
        poll_all(h, every_interval(h.next_due, h.interval, d)).interval == h.interval,
    decreases d,
{
    let ts = every_interval(h.next_due, h.interval, d);
    if d == 0 {
        assert(0 * h.interval == 0) by (nonlinear_arith);
        assert(1 * h.interval == h.interval) by (nonlinear_arith);
        assert(ts.drop_last() =~= Seq::<nat>::empty());
        assert(poll_all(h, ts.drop_last()) == h);
        assert(ts.last() == h.next_due);
    } else {
        let d1 = (d - 1) as nat;
        assert(h.next_due + (d1 + 1) * h.interval <= u64::MAX) by (nonlinear_arith)
            requires
                h.next_due + (d + 1) * h.interval <= u64::MAX,
                d1 + 1 == d,
        ;
        lemma_every_interval_prefix(h, d1);
        assert(ts.drop_last() =~= every_interval(h.next_due, h.interval, d1));
        assert(ts.last() == h.next_due + d * h.interval);
        assert((d + 1) * h.interval == d * h.interval + h.interval) by (nonlinear_arith);
        assert(d * h.interval == (d1 + 1) * h.interval);
        assert(d + 1 <= u64::MAX) by (nonlinear_arith)
            requires
                h.interval > 0,
                h.next_due + (d + 1) * h.interval <= u64::MAX,
        ;
    }
}

} // verus!
