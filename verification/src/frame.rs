//! Frames of the signaling transport.

use vstd::prelude::*;

verus! {

/// Status code sent when a session is closed for breaking the protocol.
pub const CLOSE_PROTOCOL_ERROR: u16 = 1002;

/// Why a transport is being closed.
#[derive(Debug, PartialEq, Eq)]
pub struct CloseReason {
    pub code: u16,
    pub description: Option<String>,
}

/// Mathematical value of a [`CloseReason`].
pub struct CloseReasonView {
    pub code: u16,
    pub description: Option<Seq<char>>,
}

impl View for CloseReason {
    type V = CloseReasonView;

    open spec fn view(&self) -> CloseReasonView {
        CloseReasonView {
            code: self.code,
            description: match self.description {
                Some(d) => Some(d@),
                None => None,
            },
        }
    }
}

/// The value of an optional close reason.
pub open spec fn reason_view(reason: Option<CloseReason>) -> Option<CloseReasonView> {
    match reason {
        Some(r) => Some(r@),
        None => None,
    }
}

/// One message of the framed transport.
#[derive(Debug, PartialEq, Eq)]
pub enum Frame {
    Text(String),
    Binary(Vec<u8>),
    Ping(Vec<u8>),
    Pong(Vec<u8>),
    Close(Option<CloseReason>),
    /// A fragment of a message that was split.
    Continuation,
    /// The transport could not make a frame of what it read.
    Malformed,
}

/// Mathematical value of a [`Frame`].
pub enum FrameView {
    Text(Seq<char>),
    Binary(Seq<u8>),
    Ping(Seq<u8>),
    Pong(Seq<u8>),
    Close(Option<CloseReasonView>),
    Continuation,
    Malformed,
}

impl View for Frame {
    type V = FrameView;

    open spec fn view(&self) -> FrameView {
        match *self {
            Frame::Text(t) => FrameView::Text(t@),
            Frame::Binary(b) => FrameView::Binary(b@),
            Frame::Ping(b) => FrameView::Ping(b@),
            Frame::Pong(b) => FrameView::Pong(b@),
            Frame::Close(r) => FrameView::Close(reason_view(r)),
            Frame::Continuation => FrameView::Continuation,
            Frame::Malformed => FrameView::Malformed,
        }
    }
}

} // verus!
