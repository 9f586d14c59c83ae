use vstd::prelude::*;

verus! {

/// How a session ended. Each session produces exactly one.
#[derive(Debug)]
pub enum SessionOutcome {
    ClosedNormally,
    ClosedByPeer,
    ReadTimeout,
    WriteTimeout,
    /// An underlying I/O failure, with the transport's message.
    TransportError(String),
}

impl SessionOutcome {
    /// Timeouts and transport failures are abnormal; the two closes are not.
    pub open spec fn spec_is_abnormal(&self) -> bool {
        self is ReadTimeout || self is WriteTimeout || self is TransportError
    }

    pub fn is_abnormal(&self) -> (b: bool)
        ensures
            b == self.spec_is_abnormal(),
    {
        match self {
            SessionOutcome::ReadTimeout | SessionOutcome::WriteTimeout | SessionOutcome::TransportError(
                _,
            ) => true,
            _ => false,
        }
    }
}

/// The single outcome of a session whose pumps reported `first` and then
/// `second`: the first abnormal one wins; if both are normal, the first.
pub open spec fn resolved(first: SessionOutcome, second: SessionOutcome) -> SessionOutcome {
    if first.spec_is_abnormal() || !second.spec_is_abnormal() {
        first
    } else {
        second
    }
}

pub fn resolve(first: SessionOutcome, second: SessionOutcome) -> (r: SessionOutcome)
    ensures
        r == resolved(first, second),
{
    if first.is_abnormal() || !second.is_abnormal() {
        first
    } else {
        second
    }
}

} // verus!
