use vstd::prelude::*;
use crate::frame::Frame;
use crate::heartbeat::sat_add;
use crate::outcome::SessionOutcome;
use crate::queue::{OutboundQueue, QueueState};

verus! {

/// What the receiver pump learns from the reader half.
pub enum ReceiverEvent {
    /// A frame arrived.
    Frame(Frame),
    /// The read failed, with the transport's message.
    ReadFailed(String),
    /// No frame arrived within the read timeout.
    ReadTimedOut,
    /// The stream ended after the peer went away.
    Ended,
    /// The supervisor stopped the pump.
    Stopped,
}

/// What became of one inbound event.
pub enum Inbound {
    /// An application frame for the message consumer.
    Deliver(Frame),
    /// A ping was answered: its pong is queued for the sender pump.
    Replied,
    /// A ping could not be answered: the outbound queue refused the pong.
    ReplyDropped,
    /// A pong arrived: evidence that the peer is alive.
    PongSeen,
    /// The pump has finished; the event is ignored.
    Ignored,
    /// The pump is done, with this outcome.
    Finish(SessionOutcome),
}

/// The abstract state of a receiver pump.
pub struct ReceiverState {
    pub finished: bool,
    pub pongs_seen: nat,
}

impl ReceiverState {
    /// One inbound event, with the outbound queue that takes auto-replies.
    /// Application frames are surfaced; a ping has its pong offered to the
    /// queue without waiting; pongs are counted; a close, a read failure, a
    /// read timeout, the end of the stream or a stop ends the pump, which then
    /// ignores everything.
    pub open spec fn step(self, q: QueueState, e: ReceiverEvent) -> (
        ReceiverState,
        QueueState,
        Inbound,
    ) {
        if self.finished {
            (self, q, Inbound::Ignored)
        } else {
            let done = ReceiverState { finished: true, ..self };
            match e {
                ReceiverEvent::Frame(f) => match f {
                    Frame::Text(_) => (self, q, Inbound::Deliver(f)),
                    Frame::Binary(_) => (self, q, Inbound::Deliver(f)),
                    Frame::Ping(p) => if q.has_room() {
                        (self, q.offered(Frame::Pong(p)), Inbound::Replied)
                    } else {
                        (self, q, Inbound::ReplyDropped)
                    },
                    Frame::Pong(_) => (
                        ReceiverState { pongs_seen: sat_add(self.pongs_seen, 1), ..self },
                        q,
                        Inbound::PongSeen,
                    ),
                    Frame::Close(_) => (done, q, Inbound::Finish(SessionOutcome::ClosedByPeer)),
                },
                ReceiverEvent::ReadFailed(d) => (
                    done,
                    q,
                    Inbound::Finish(SessionOutcome::TransportError(d)),
                ),
                ReceiverEvent::ReadTimedOut => (done, q, Inbound::Finish(SessionOutcome::ReadTimeout)),
                ReceiverEvent::Ended => (done, q, Inbound::Finish(SessionOutcome::ClosedByPeer)),
                ReceiverEvent::Stopped => (done, q, Inbound::Finish(SessionOutcome::ClosedNormally)),
            }
        }
    }
}

/// Reads frames from the reader half, answers pings, and surfaces application
/// frames in arrival order. It owns the reader half alone.
pub struct ReceiverPump {
    finished: bool,
    pongs_seen: u64,
}

impl View for ReceiverPump {
    type V = ReceiverState;

    closed spec fn view(&self) -> ReceiverState {
        ReceiverState { finished: self.finished, pongs_seen: self.pongs_seen as nat }
    }
}

impl ReceiverPump {
    pub fn new() -> (p: ReceiverPump)
        ensures
            p@ == (ReceiverState { finished: false, pongs_seen: 0 }),
    {
        ReceiverPump { finished: false, pongs_seen: 0 }
    }

    pub fn on_event(&mut self, e: ReceiverEvent, queue: &mut OutboundQueue) -> (r: Inbound)
        requires
            old(queue).wf(),
        ensures
            final(queue).wf(),
            (final(self)@, final(queue)@, r) == old(self)@.step(old(queue)@, e),
    {
        if self.finished {
            return Inbound::Ignored;
        }
        match e {
            ReceiverEvent::Frame(f) => match f {
                Frame::Text(_) => Inbound::Deliver(f),
                Frame::Binary(_) => Inbound::Deliver(f),
                Frame::Ping(p) => match queue.send(Frame::Pong(p)) {
                    Ok(()) => Inbound::Replied,
                    Err(_) => Inbound::ReplyDropped,
                },
                Frame::Pong(_) => {
                    self.pongs_seen = self.pongs_seen.saturating_add(1);
                    Inbound::PongSeen
                },
                Frame::Close(_) => {
                    self.finished = true;
                    Inbound::Finish(SessionOutcome::ClosedByPeer)
                },
            },
            ReceiverEvent::ReadFailed(d) => {
                self.finished = true;
                Inbound::Finish(SessionOutcome::TransportError(d))
            },
            ReceiverEvent::ReadTimedOut => {
                self.finished = true;
                Inbound::Finish(SessionOutcome::ReadTimeout)
            },
            ReceiverEvent::Ended => {
                self.finished = true;
                Inbound::Finish(SessionOutcome::ClosedByPeer)
            },
            ReceiverEvent::Stopped => {
                self.finished = true;
                Inbound::Finish(SessionOutcome::ClosedNormally)
            },
        }
    }

    pub fn is_finished(&self) -> (b: bool)
        ensures
            b == self@.finished,
    {
        self.finished
    }

    /// The number of pongs seen so far.
    pub fn pongs_seen(&self) -> (n: u64)
        ensures
            n == self@.pongs_seen,
    {
        self.pongs_seen
    }
}

/// The states and the results after feeding `es` to a pump in `r` beside a
/// queue in `q`.
pub open spec fn run_inbound(r: ReceiverState, q: QueueState, es: Seq<ReceiverEvent>) -> (
    ReceiverState,
    QueueState,
    Seq<Inbound>,
)
    decreases es.len(),
{
    if es.len() == 0 {
        (r, q, Seq::empty())
    } else {
        let (r1, q1, outs) = run_inbound(r, q, es.drop_last());
        let (r2, q2, o) = r1.step(q1, es.last());
        (r2, q2, outs.push(o))
    }
}

/// An inbound ping, while the outbound queue has room, puts exactly one pong
/// with the same payload at the back of the queue, and is not surfaced.
pub proof fn lemma_ping_gets_one_pong(r: ReceiverState, q: QueueState, payload: Vec<u8>)
    requires
        !r.finished,
        q.has_room(),
    ensures
        ({
            let (r2, q2, o) = r.step(q, ReceiverEvent::Frame(Frame::Ping(payload)));
            &&& q2.items == q.items.push(Frame::Pong(payload))
            &&& q2.capacity == q.capacity && q2.closed == q.closed && q2.policy == q.policy
            &&& o is Replied
            &&& r2 == r
        }),
{
}

/// Close propagation: an inbound close frame ends the pump with
/// `ClosedByPeer`, and no frame that comes after it is ever surfaced.
pub proof fn lemma_close_stops_delivery(
    r: ReceiverState,
    q: QueueState,
    c: Frame,
    later: Seq<ReceiverEvent>,
)
    requires
        !r.finished,
        c is Close,
    ensures
        ({
            let (r2, q2, o) = r.step(q, ReceiverEvent::Frame(c));
            &&& o == Inbound::Finish(SessionOutcome::ClosedByPeer)
            &&& forall|i: int|
                0 <= i < later.len() ==> !(#[trigger] run_inbound(r2, q2, later).2[i] is Deliver)
        }),
{
    let (r2, q2, o) = r.step(q, ReceiverEvent::Frame(c));
    lemma_finished_ignores(r2, q2, later);
}

/// A finished pump ignores every event and leaves the queue alone.
pub proof fn lemma_finished_ignores(r: ReceiverState, q: QueueState, es: Seq<ReceiverEvent>)
    requires
        r.finished,
    ensures
        run_inbound(r, q, es).0 == r,
        run_inbound(r, q, es).1 == q,
        run_inbound(r, q, es).2.len() == es.len(),
        forall|i: int| 0 <= i < es.len() ==> #[trigger] run_inbound(r, q, es).2[i] is Ignored,
    decreases es.len(),
{
    if es.len() > 0 {
        lemma_finished_ignores(r, q, es.drop_last());
    }
}

/// The frames of the `Deliver` results, in order.
pub open spec fn delivered(outs: Seq<Inbound>) -> Seq<Frame>
    decreases outs.len(),
{
    if outs.len() == 0 {
        Seq::empty()
    } else {
        match outs.last() {
            Inbound::Deliver(f) => delivered(outs.drop_last()).push(f),
            _ => delivered(outs.drop_last()),
        }
    }
}

/// The application frames among the events, in arrival order.
pub open spec fn arrived(es: Seq<ReceiverEvent>) -> Seq<Frame>
    decreases es.len(),
{
    if es.len() == 0 {
        Seq::empty()
    } else {
        match es.last() {
            ReceiverEvent::Frame(f) => if f.spec_is_application() {
                arrived(es.drop_last()).push(f)
            } else {
                arrived(es.drop_last())
            },
            _ => arrived(es.drop_last()),
        }
    }
}

/// Events that leave a receiver pump running.
pub open spec fn keeps_running(e: ReceiverEvent) -> bool {
    e matches ReceiverEvent::Frame(f) && !(f is Close)
}

/// A live pump surfaces exactly the application frames that arrive, in the
/// order they arrive.
pub proof fn lemma_delivery_in_arrival_order(r: ReceiverState, q: QueueState, es: Seq<ReceiverEvent>)
    requires
        !r.finished,
        forall|i: int| 0 <= i < es.len() ==> keeps_running(#[trigger] es[i]),
    ensures
        delivered(run_inbound(r, q, es).2) == arrived(es),
        !run_inbound(r, q, es).0.finished,
    decreases es.len(),
{
    if es.len() > 0 {
        let pre = es.drop_last();
        assert forall|i: int| 0 <= i < pre.len() implies keeps_running(#[trigger] pre[i]) by {
            assert(pre[i] == es[i]);
        }
        lemma_delivery_in_arrival_order(r, q, pre);
        assert(keeps_running(es[es.len() - 1]));
        let (r1, q1, outs) = run_inbound(r, q, pre);
        let (r2, q2, o) = r1.step(q1, es.last());
        assert(outs.push(o).drop_last() =~= outs);
    }
}

} // verus!
