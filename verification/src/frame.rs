use vstd::prelude::*;

verus! {

/// The close code a peer sends for an intentional, non-retryable close.
pub const NORMAL_CLOSE_CODE: u16 = 1000;

/// One wire frame, as the transport hands it to the session: the text,
/// binary, ping, pong and close frames of the socket protocol. A close
/// frame carries its status code when the peer sent one.
#[derive(Debug, Clone, PartialEq, Eq)]
pub enum Frame {
    Text(String),
    Binary(Vec<u8>),
    Ping(Vec<u8>),
    Pong(Vec<u8>),
    Close(Option<u16>),
}

/// The mathematical value of a frame: its payload as a sequence.
pub enum FrameView {
    Text(Seq<char>),
    Binary(Seq<u8>),
    Ping(Seq<u8>),
    Pong(Seq<u8>),
    Close(Option<u16>),
}

impl View for Frame {
    type V = FrameView;

    open spec fn view(&self) -> FrameView {
        match self {
            Frame::Text(t) => FrameView::Text(t@),
            Frame::Binary(b) => FrameView::Binary(b@),
            Frame::Ping(b) => FrameView::Ping(b@),
            Frame::Pong(b) => FrameView::Pong(b@),
            Frame::Close(code) => FrameView::Close(*code),
        }
    }
}

} // verus!
