use std::collections::VecDeque;
use vstd::prelude::*;
use crate::frame::Frame;

verus! {

/// What a producer meets when the outbound queue is full.
#[derive(Clone, Copy, Debug, PartialEq, Eq, Structural)]
pub enum BackpressurePolicy {
    /// The producer waits until the sender pump frees a slot.
    Block,
    /// The enqueue attempt fails at once; the caller retries or drops.
    FailFast,
}

/// Why a frame was not queued; the frame is handed back.
pub enum SendError {
    /// The queue is full under the fail-fast policy.
    QueueFull(Frame),
    /// The queue is full under the blocking policy: wait for room, then offer again.
    WouldBlock(Frame),
    /// The producer side has been closed.
    Closed(Frame),
}

/// What the sender pump finds when it pulls from the queue.
pub enum Pull {
    Frame(Frame),
    /// Nothing queued yet; the producer side is still open.
    Empty,
    /// Nothing queued and the producer side is closed: the pump may finish.
    Closed,
}

/// The abstract state of an outbound queue.
pub struct QueueState {
    pub items: Seq<Frame>,
    pub capacity: nat,
    pub policy: BackpressurePolicy,
    pub closed: bool,
}

impl QueueState {
    pub open spec fn has_room(self) -> bool {
        !self.closed && self.items.len() < self.capacity
    }

    /// The state after offering `f`: appended when there is room, unchanged otherwise.
    pub open spec fn offered(self, f: Frame) -> QueueState {
        if self.has_room() {
            QueueState { items: self.items.push(f), ..self }
        } else {
            self
        }
    }

    /// The state after the sender pump pulls once: the oldest frame leaves.
    pub open spec fn pulled(self) -> QueueState {
        if self.items.len() > 0 {
            QueueState { items: self.items.drop_first(), ..self }
        } else {
            self
        }
    }

    pub open spec fn offer_result(self, f: Frame) -> Result<(), SendError> {
        if self.has_room() {
            Ok(())
        } else if self.closed {
            Err(SendError::Closed(f))
        } else if self.policy == BackpressurePolicy::FailFast {
            Err(SendError::QueueFull(f))
        } else {
            Err(SendError::WouldBlock(f))
        }
    }

    pub open spec fn pull_result(self) -> Pull {
        if self.items.len() > 0 {
            Pull::Frame(self.items[0])
        } else if self.closed {
            Pull::Closed
        } else {
            Pull::Empty
        }
    }
}

/// A bounded FIFO of frames awaiting transmission: the one backpressure
/// mechanism of a session.
pub struct OutboundQueue {
    items: VecDeque<Frame>,
    capacity: usize,
    policy: BackpressurePolicy,
    closed: bool,
}

impl View for OutboundQueue {
    type V = QueueState;

    closed spec fn view(&self) -> QueueState {
        QueueState {
            items: self.items@,
            capacity: self.capacity as nat,
            policy: self.policy,
            closed: self.closed,
        }
    }
}

impl OutboundQueue {
    /// The queue never holds more than its capacity, which is positive.
    pub open spec fn wf(&self) -> bool {
        self@.capacity > 0 && self@.items.len() <= self@.capacity
    }

    pub fn new(capacity: usize, policy: BackpressurePolicy) -> (q: OutboundQueue)
        requires
            capacity > 0,
        ensures
            q.wf(),
            q@.items == Seq::<Frame>::empty(),
            q@.capacity == capacity,
            q@.policy == policy,
            !q@.closed,
    {
        OutboundQueue { items: VecDeque::new(), capacity, policy, closed: false }
    }

    /// Offers a frame: it is appended when the queue is open and not full;
    /// otherwise it comes back inside the error, which the policy picks.
    pub fn send(&mut self, frame: Frame) -> (r: Result<(), SendError>)
        requires
            old(self).wf(),
        ensures
            final(self).wf(),
            final(self)@ == old(self)@.offered(frame),
            r == old(self)@.offer_result(frame),
    {
        if self.closed {
            Err(SendError::Closed(frame))
        } else if self.items.len() >= self.capacity {
            match self.policy {
                BackpressurePolicy::FailFast => Err(SendError::QueueFull(frame)),
                BackpressurePolicy::Block => Err(SendError::WouldBlock(frame)),
            }
        } else {
            self.items.push_back(frame);
            Ok(())
        }
    }

    /// Takes the oldest frame, or says whether more may come.
    pub fn pull(&mut self) -> (r: Pull)
        requires
            old(self).wf(),
        ensures
            final(self).wf(),
            final(self)@ == old(self)@.pulled(),
            r == old(self)@.pull_result(),
    {
        match self.items.pop_front() {
            Some(f) => Pull::Frame(f),
            None => if self.closed {
                Pull::Closed
            } else {
                Pull::Empty
            },
        }
    }

    /// Closes the producer side: no frame is accepted afterwards, and the
    /// frames already queued stay to be drained.
    pub fn close(&mut self)
        requires
            old(self).wf(),
        ensures
            final(self).wf(),
            final(self)@ == (QueueState { closed: true, ..old(self)@ }),
    {
        self.closed = true;
    }

    pub fn len(&self) -> (n: usize)
        ensures
            n == self@.items.len(),
    {
        self.items.len()
    }

    pub fn capacity(&self) -> (c: usize)
        ensures
            c == self@.capacity,
    {
        self.capacity
    }

    pub fn policy(&self) -> (p: BackpressurePolicy)
        ensures
            p == self@.policy,
    {
        self.policy
    }

    pub fn is_closed(&self) -> (b: bool)
        ensures
            b == self@.closed,
    {
        self.closed
    }

    pub fn is_full(&self) -> (b: bool)
        ensures
            b == (self@.items.len() >= self@.capacity),
    {
        self.items.len() >= self.capacity
    }
}

/// The state after offering each frame of `fs` in turn.
pub open spec fn offer_all(s: QueueState, fs: Seq<Frame>) -> QueueState
    decreases fs.len(),
{
    if fs.len() == 0 {
        s
    } else {
        offer_all(s, fs.drop_last()).offered(fs.last())
    }
}

/// The frames that `n` pulls take out, oldest first, with the state left behind.
pub open spec fn pull_n(s: QueueState, n: nat) -> (Seq<Frame>, QueueState)
    decreases n,
{
    if n == 0 {
        (Seq::empty(), s)
    } else {
        let (taken, rest) = pull_n(s, (n - 1) as nat);
        match rest.pull_result() {
            Pull::Frame(f) => (taken.push(f), rest.pulled()),
            _ => (taken, rest.pulled()),
        }
    }
}

/// While every offer finds room, offering frames appends them in order and
/// changes nothing else.
pub proof fn lemma_offer_all_appends(s: QueueState, fs: Seq<Frame>)
    requires
        !s.closed,
        s.items.len() + fs.len() <= s.capacity,
    ensures
        offer_all(s, fs) == (QueueState { items: s.items + fs, ..s }),
        forall|i: int|
            0 <= i < fs.len() ==> #[trigger] offer_all(s, fs.take(i)).offer_result(fs[i]) is Ok,
    decreases fs.len(),
{
    if fs.len() > 0 {
        lemma_offer_all_appends(s, fs.drop_last());
        assert((s.items + fs.drop_last()).push(fs.last()) =~= s.items + fs);
        assert forall|i: int| 0 <= i < fs.len() implies #[trigger] offer_all(s, fs.take(i)).offer_result(
            fs[i],
        ) is Ok by {
            if i < fs.len() - 1 {
                assert(fs.take(i) =~= fs.drop_last().take(i));
                assert(fs[i] == fs.drop_last()[i]);
            } else {
                assert(fs.take(i) =~= fs.drop_last());
            }
        }
    } else {
        assert(s.items + fs =~= s.items);
    }
}

/// Fail-fast backpressure: an empty queue of capacity `C` accepts `C` frames,
/// refuses the next one with `QueueFull` and keeps its contents, and accepts
/// again once one frame has been drained.
pub proof fn lemma_fail_fast_capacity(s: QueueState, fs: Seq<Frame>, extra: Frame, next: Frame)
    requires
        s.capacity > 0,
        s.items.len() == 0,
        !s.closed,
        s.policy == BackpressurePolicy::FailFast,
        fs.len() == s.capacity,
    ensures
        forall|i: int|
            0 <= i < fs.len() ==> #[trigger] offer_all(s, fs.take(i)).offer_result(fs[i]) is Ok,
        offer_all(s, fs).items == fs,
        offer_all(s, fs).offer_result(extra) == Err::<(), SendError>(SendError::QueueFull(extra)),
        offer_all(s, fs).offered(extra) == offer_all(s, fs),
        offer_all(s, fs).pulled().offer_result(next) is Ok,
        offer_all(s, fs).pulled().offered(next).items == fs.drop_first().push(next),
{
    lemma_offer_all_appends(s, fs);
    assert(s.items + fs =~= fs);
}

/// First in, first out: frames offered to a queue with room for them all are
/// pulled out after the frames already queued, in the order they were offered.
pub proof fn lemma_fifo(s: QueueState, fs: Seq<Frame>)
    requires
        !s.closed,
        s.items.len() + fs.len() <= s.capacity,
    ensures
        pull_n(offer_all(s, fs), (s.items.len() + fs.len()) as nat).0 == s.items + fs,
{
    lemma_offer_all_appends(s, fs);
    lemma_pull_n_takes_prefix(offer_all(s, fs), (s.items.len() + fs.len()) as nat);
    assert((s.items + fs).take((s.items.len() + fs.len()) as int) =~= s.items + fs);
}

/// Pulling `n` times from a queue that holds at least `n` frames takes its
/// first `n` frames and leaves the rest.
pub proof fn lemma_pull_n_takes_prefix(s: QueueState, n: nat)
    requires
        n <= s.items.len(),
    ensures
        pull_n(s, n).0 == s.items.take(n as int),
        pull_n(s, n).1 == (QueueState { items: s.items.skip(n as int), ..s }),
    decreases n,
{
    if n == 0 {
        assert(s.items.skip(0) =~= s.items);
        assert(s.items.take(0) =~= Seq::<Frame>::empty());
    } else {
        lemma_pull_n_takes_prefix(s, (n - 1) as nat);
        let rest = pull_n(s, (n - 1) as nat).1;
        assert(rest.items[0] == s.items[n - 1]);
        assert(s.items.take(n - 1).push(s.items[n - 1]) =~= s.items.take(n as int));
        assert(rest.items.drop_first() =~= s.items.skip(n as int));
    }
}

} // verus!
