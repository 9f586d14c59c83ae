use vstd::prelude::*;
use crate::frame::Frame;

verus! {

/// What the accept loop meets on each turn.
pub enum ListenerEvent {
    /// A raw connection was accepted.
    Connected,
    /// A connection's handshake completed.
    HandshakeSucceeded,
    /// A connection was accepted but its handshake failed, with the message.
    HandshakeFailed(String),
    /// Accepting failed, with the message.
    AcceptFailed(String),
}

pub enum ListenerAction {
    /// Perform the inbound handshake on a task of the connection's own, so
    /// that a slow or failing handshake never holds up accepting.
    Handshake,
    /// Hand the connection to a freshly spawned, independent session.
    SpawnSession,
    /// Log this message and keep accepting: one connection's failure does not
    /// stop the listener.
    LogAndContinue(String),
    /// Stop the listener and surface this fatal message.
    Fail(String),
}

pub open spec fn listener_step(e: ListenerEvent) -> ListenerAction {
    match e {
        ListenerEvent::Connected => ListenerAction::Handshake,
        ListenerEvent::HandshakeSucceeded => ListenerAction::SpawnSession,
        ListenerEvent::HandshakeFailed(d) => ListenerAction::LogAndContinue(d),
        ListenerEvent::AcceptFailed(d) => ListenerAction::Fail(d),
    }
}

pub fn on_listener_event(e: ListenerEvent) -> (a: ListenerAction)
    ensures
        a == listener_step(e),
{
    match e {
        ListenerEvent::Connected => ListenerAction::Handshake,
        ListenerEvent::HandshakeSucceeded => ListenerAction::SpawnSession,
        ListenerEvent::HandshakeFailed(d) => ListenerAction::LogAndContinue(d),
        ListenerEvent::AcceptFailed(d) => ListenerAction::Fail(d),
    }
}

pub open spec fn echo_suffix() -> Seq<char> {
    seq!['_', 'r', 'e', 't']
}

/// The echo service's reply text: the text with `_ret` appended.
pub fn echo_text(text: &str) -> (r: String)
    ensures
        r@ == text@ + echo_suffix(),
{
    let s = text.to_owned();
    let r = s.concat("_ret");
    proof {
        reveal_strlit("_ret");
        assert("_ret"@ =~= echo_suffix());
    }
    r
}

/// The echo service's consumer: a text frame is answered with its text and
/// `_ret`; every other frame gets no answer.
pub fn echo_response(f: &Frame) -> (r: Option<Frame>)
    ensures
        f matches Frame::Text(t) ==> (r matches Some(Frame::Text(u)) && u@ == t@ + echo_suffix()),
        !(f is Text) ==> r is None,
{
    match f {
        Frame::Text(t) => Some(Frame::Text(echo_text(t.as_str()))),
        _ => None,
    }
}

} // verus!
