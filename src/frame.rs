use vstd::prelude::*;

verus! {

/// The status code and reason carried by a close frame.
#[derive(Debug)]
pub struct CloseInfo {
    pub code: u16,
    pub reason: String,
}

/// The wire-level unit exchanged over a duplex connection.
#[derive(Debug)]
pub enum Frame {
    Text(String),
    Binary(Vec<u8>),
    Ping(Vec<u8>),
    Pong(Vec<u8>),
    Close(Option<CloseInfo>),
}

/// The tag of a frame, without its payload.
#[derive(Clone, Copy, Debug, PartialEq, Eq, Structural)]
pub enum FrameKind {
    Text,
    Binary,
    Ping,
    Pong,
    Close,
}

impl Frame {
    pub open spec fn spec_kind(&self) -> FrameKind {
        match self {
            Frame::Text(_) => FrameKind::Text,
            Frame::Binary(_) => FrameKind::Binary,
            Frame::Ping(_) => FrameKind::Ping,
            Frame::Pong(_) => FrameKind::Pong,
            Frame::Close(_) => FrameKind::Close,
        }
    }

    /// Application frames are the ones surfaced to the message consumer.
    pub open spec fn spec_is_application(&self) -> bool {
        self is Text || self is Binary
    }

    pub fn kind(&self) -> (k: FrameKind)
        ensures
            k == self.spec_kind(),
    {
        match self {
            Frame::Text(_) => FrameKind::Text,
            Frame::Binary(_) => FrameKind::Binary,
            Frame::Ping(_) => FrameKind::Ping,
            Frame::Pong(_) => FrameKind::Pong,
            Frame::Close(_) => FrameKind::Close,
        }
    }

    pub fn is_application(&self) -> (b: bool)
        ensures
            b == self.spec_is_application(),
    {
        match self {
            Frame::Text(_) | Frame::Binary(_) => true,
            _ => false,
        }
    }
}

} // verus!
