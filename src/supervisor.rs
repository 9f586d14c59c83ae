use vstd::prelude::*;
use crate::outcome::{SessionOutcome, resolve, resolved};

verus! {

/// The life of a session: `Handshaking -> Active -> Draining -> Closed`.
#[derive(Clone, Copy, Debug, PartialEq, Eq, Structural)]
pub enum SessionState {
    Handshaking,
    Active,
    Draining,
    Closed,
}

/// One of the two pumps of a session.
#[derive(Clone, Copy, Debug, PartialEq, Eq, Structural)]
pub enum PumpId {
    Sender,
    Receiver,
}

pub open spec fn other(p: PumpId) -> PumpId {
    match p {
        PumpId::Sender => PumpId::Receiver,
        PumpId::Receiver => PumpId::Sender,
    }
}

/// The position of a state along the life of a session.
pub open spec fn rank(s: SessionState) -> nat {
    match s {
        SessionState::Handshaking => 0,
        SessionState::Active => 1,
        SessionState::Draining => 2,
        SessionState::Closed => 3,
    }
}

pub enum SupervisorEvent {
    HandshakeSucceeded,
    /// The handshake failed, with the transport's message.
    HandshakeFailed(String),
    /// A pump returned with this outcome.
    PumpFinished(PumpId, SessionOutcome),
}

pub enum SupervisorAction {
    /// Start both pumps on the new connection handle.
    StartPumps,
    /// Unblock this pump: close the queue's producer side for the sender,
    /// shut the reader half for the receiver.
    Stop(PumpId),
    /// The session is closed with this outcome: release the connection handle.
    Resolved(SessionOutcome),
    /// Nothing to do.
    Ignore,
}

/// The abstract state of a supervisor.
pub struct SupervisorState {
    pub state: SessionState,
    pub sender_done: bool,
    pub receiver_done: bool,
    /// The outcome of the pump that finished first, while draining.
    pub first: Option<SessionOutcome>,
}

impl SupervisorState {
    pub open spec fn initial() -> SupervisorState {
        SupervisorState {
            state: SessionState::Handshaking,
            sender_done: false,
            receiver_done: false,
            first: None,
        }
    }

    pub open spec fn is_done(self, p: PumpId) -> bool {
        match p {
            PumpId::Sender => self.sender_done,
            PumpId::Receiver => self.receiver_done,
        }
    }

    pub open spec fn wf(self) -> bool {
        match self.state {
            SessionState::Handshaking | SessionState::Active => !self.sender_done
                && !self.receiver_done && self.first is None,
            SessionState::Draining => self.sender_done != self.receiver_done && self.first is Some,
            SessionState::Closed => self.first is None,
        }
    }

    /// One supervisor event. The first pump to finish moves the session to
    /// draining and stops the other; when the other returns too, the session
    /// closes with the resolved outcome. Anything else is ignored.
    pub open spec fn step(self, e: SupervisorEvent) -> (SupervisorState, SupervisorAction) {
        match (self.state, e) {
            (SessionState::Handshaking, SupervisorEvent::HandshakeSucceeded) => (
                SupervisorState { state: SessionState::Active, ..self },
                SupervisorAction::StartPumps,
            ),
            (SessionState::Handshaking, SupervisorEvent::HandshakeFailed(d)) => (
                SupervisorState { state: SessionState::Closed, ..self },
                SupervisorAction::Resolved(SessionOutcome::TransportError(d)),
            ),
            (SessionState::Active, SupervisorEvent::PumpFinished(p, o)) => (
                SupervisorState {
                    state: SessionState::Draining,
                    sender_done: p == PumpId::Sender,
                    receiver_done: p == PumpId::Receiver,
                    first: Some(o),
                },
                SupervisorAction::Stop(other(p)),
            ),
            (SessionState::Draining, SupervisorEvent::PumpFinished(p, o)) => if self.is_done(p) {
                (self, SupervisorAction::Ignore)
            } else {
                (
                    SupervisorState {
                        state: SessionState::Closed,
                        sender_done: true,
                        receiver_done: true,
                        first: None,
                    },
                    SupervisorAction::Resolved(resolved(self.first.unwrap(), o)),
                )
            },
            _ => (self, SupervisorAction::Ignore),
        }
    }
}

/// Races the two pumps of a session and resolves its single outcome.
pub struct Supervisor {
    state: SessionState,
    sender_done: bool,
    receiver_done: bool,
    first: Option<SessionOutcome>,
}

impl View for Supervisor {
    type V = SupervisorState;

    closed spec fn view(&self) -> SupervisorState {
        SupervisorState {
            state: self.state,
            sender_done: self.sender_done,
            receiver_done: self.receiver_done,
            first: self.first,
        }
    }
}

impl Supervisor {
    pub fn new() -> (s: Supervisor)
        ensures
            s@ == SupervisorState::initial(),
            s@.wf(),
    {
        Supervisor {
            state: SessionState::Handshaking,
            sender_done: false,
            receiver_done: false,
            first: None,
        }
    }

    pub fn on_event(&mut self, e: SupervisorEvent) -> (a: SupervisorAction)
        requires
            old(self)@.wf(),
        ensures
            final(self)@.wf(),
            (final(self)@, a) == old(self)@.step(e),
    {
        match self.state {
            SessionState::Handshaking => match e {
                SupervisorEvent::HandshakeSucceeded => {
                    self.state = SessionState::Active;
                    SupervisorAction::StartPumps
                },
                SupervisorEvent::HandshakeFailed(d) => {
                    self.state = SessionState::Closed;
                    SupervisorAction::Resolved(SessionOutcome::TransportError(d))
                },
                _ => SupervisorAction::Ignore,
            },
            SessionState::Active => match e {
                SupervisorEvent::PumpFinished(p, o) => {
                    self.state = SessionState::Draining;
                    self.sender_done = p == PumpId::Sender;
                    self.receiver_done = p == PumpId::Receiver;
                    self.first = Some(o);
                    match p {
                        PumpId::Sender => SupervisorAction::Stop(PumpId::Receiver),
                        PumpId::Receiver => SupervisorAction::Stop(PumpId::Sender),
                    }
                },
                _ => SupervisorAction::Ignore,
            },
            SessionState::Draining => match e {
                SupervisorEvent::PumpFinished(p, o) => {
                    let already = match p {
                        PumpId::Sender => self.sender_done,
                        PumpId::Receiver => self.receiver_done,
                    };
                    if already {
                        SupervisorAction::Ignore
                    } else {
                        match self.first.take() {
                            Some(f) => {
                                self.state = SessionState::Closed;
                                self.sender_done = true;
                                self.receiver_done = true;
                                SupervisorAction::Resolved(resolve(f, o))
                            },
                            None => SupervisorAction::Ignore,
                        }
                    }
                },
                _ => SupervisorAction::Ignore,
            },
            SessionState::Closed => SupervisorAction::Ignore,
        }
    }

    pub fn state(&self) -> (s: SessionState)
        ensures
            s == self@.state,
    {
        self.state
    }
}

/// The state and the actions after feeding `es` to a supervisor in `s`.
pub open spec fn run(s: SupervisorState, es: Seq<SupervisorEvent>) -> (
    SupervisorState,
    Seq<SupervisorAction>,
)
    decreases es.len(),
{
    if es.len() == 0 {
        (s, Seq::empty())
    } else {
        let (t, acts) = run(s, es.drop_last());
        let (u, a) = t.step(es.last());
        (u, acts.push(a))
    }
}

/// The number of `Resolved` actions.
pub open spec fn resolutions(acts: Seq<SupervisorAction>) -> nat
    decreases acts.len(),
{
    if acts.len() == 0 {
        0
    } else {
        resolutions(acts.drop_last()) + if acts.last() is Resolved {
            1nat
        } else {
            0nat
        }
    }
}

pub proof fn lemma_step_keeps_wf(s: SupervisorState, e: SupervisorEvent)
    requires
        s.wf(),
    ensures
        s.step(e).0.wf(),
        rank(s.state) <= rank(s.step(e).0.state),
        s.step(e).1 is Resolved <==> (s.state != SessionState::Closed && s.step(e).0.state
            == SessionState::Closed),
{
}

/// A session moves only forward along `Handshaking -> Active -> Draining ->
/// Closed`, and produces exactly one outcome: one `Resolved` action by the
/// time it is closed, none before.
pub proof fn lemma_one_outcome_per_session(es: Seq<SupervisorEvent>)
    ensures
        run(SupervisorState::initial(), es).0.wf(),
        resolutions(run(SupervisorState::initial(), es).1) == if run(
            SupervisorState::initial(),
            es,
        ).0.state == SessionState::Closed {
            1nat
        } else {
            0nat
        },
        forall|i: int|
            0 <= i <= es.len() ==> #[trigger] rank(run(SupervisorState::initial(), es.take(i)).0.state)
                <= rank(run(SupervisorState::initial(), es).0.state),
    decreases es.len(),
{
    let s0 = SupervisorState::initial();
    if es.len() > 0 {
        let pre = es.drop_last();
        lemma_one_outcome_per_session(pre);
        let (t, acts) = run(s0, pre);
        lemma_step_keeps_wf(t, es.last());
        let (u, a) = t.step(es.last());
        assert(acts.push(a).drop_last() =~= acts);
        assert(es.take(es.len() as int) =~= es);
        assert forall|i: int| 0 <= i <= es.len() implies #[trigger] rank(
            run(s0, es.take(i)).0.state,
        ) <= rank(run(s0, es).0.state) by {
            if i < es.len() {
                assert(es.take(i) =~= pre.take(i));
            }
        }
    } else {
        assert(es.take(0) =~= es);
    }
}

/// A closed session is terminal: every later event is ignored.
pub proof fn lemma_closed_is_terminal(s: SupervisorState, es: Seq<SupervisorEvent>)
    requires
        s.state == SessionState::Closed,
    ensures
        run(s, es).0 == s,
        forall|i: int| 0 <= i < run(s, es).1.len() ==> #[trigger] run(s, es).1[i] is Ignore,
        run(s, es).1.len() == es.len(),
    decreases es.len(),
{
    if es.len() > 0 {
        lemma_closed_is_terminal(s, es.drop_last());
    }
}

/// Whichever pump finishes first, the other is stopped, and once it returns
/// the session closes with the first abnormal outcome of the two, or the
/// first outcome when both are normal. In particular a peer's close followed
/// by the sender's normal finish resolves to `ClosedByPeer`.
pub proof fn lemma_outcome_precedence(p: PumpId, a: SessionOutcome, b: SessionOutcome)
    ensures
        ({
            let active = SupervisorState { state: SessionState::Active, ..SupervisorState::initial() };
            let (s1, act1) = active.step(SupervisorEvent::PumpFinished(p, a));
            let (s2, act2) = s1.step(SupervisorEvent::PumpFinished(other(p), b));
            &&& act1 == SupervisorAction::Stop(other(p))
            &&& s1.state == SessionState::Draining
            &&& act2 == SupervisorAction::Resolved(resolved(a, b))
            &&& s2.state == SessionState::Closed
            &&& (a is ClosedByPeer && !b.spec_is_abnormal()) ==> resolved(a, b) is ClosedByPeer
        }),
{
}

} // verus!
