//! WebSocket messages as the handlers see them, and the frames they travel in.

use vstd::prelude::*;

verus! {

/// The mathematical content of a [`WebSocketMessage`].
pub ghost enum MessageView {
    Text(Seq<char>),
    Binary(Seq<u8>),
    Ping(Seq<u8>),
    Pong(Seq<u8>),
}

/// An enum that represents a websocket message.
///
/// Close frames are not represented: they end the physical connection instead.
#[derive(Debug, Eq, PartialEq, Hash)]
pub enum WebSocketMessage {
    /// A text message
    Text(String),
    /// A binary message
    Binary(Vec<u8>),
    /// A ping message
    Ping(Vec<u8>),
    /// A pong message
    Pong(Vec<u8>),
}

/// The mathematical content of a [`Frame`].
pub ghost enum FrameView {
    Text(Seq<char>),
    Binary(Seq<u8>),
    Ping(Seq<u8>),
    Pong(Seq<u8>),
    Close,
    Raw,
}

/// One frame as it is read from, or written to, a physical connection.
#[derive(Debug, Eq, PartialEq, Hash)]
pub enum Frame {
    /// A text frame
    Text(String),
    /// A binary frame
    Binary(Vec<u8>),
    /// A ping frame
    Ping(Vec<u8>),
    /// A pong frame
    Pong(Vec<u8>),
    /// A close frame, whatever reason it carries
    Close,
    /// A raw frame that the transport did not decode
    Raw,
}

impl View for WebSocketMessage {
    type V = MessageView;

    open spec fn view(&self) -> MessageView {
        match self {
            WebSocketMessage::Text(text) => MessageView::Text(text@),
            WebSocketMessage::Binary(data) => MessageView::Binary(data@),
            WebSocketMessage::Ping(data) => MessageView::Ping(data@),
            WebSocketMessage::Pong(data) => MessageView::Pong(data@),
        }
    }
}

impl View for Frame {
    type V = FrameView;

    open spec fn view(&self) -> FrameView {
        match self {
            Frame::Text(text) => FrameView::Text(text@),
            Frame::Binary(data) => FrameView::Binary(data@),
            Frame::Ping(data) => FrameView::Ping(data@),
            Frame::Pong(data) => FrameView::Pong(data@),
            Frame::Close => FrameView::Close,
            Frame::Raw => FrameView::Raw,
        }
    }
}

/// A list of messages in mathematical terms.
pub open spec fn messages_view(messages: Vec<WebSocketMessage>) -> Seq<MessageView> {
    messages@.map_values(|m: WebSocketMessage| m@)
}

/// The message that a frame carries, if it carries one.
pub open spec fn message_of_frame(frame: FrameView) -> Option<MessageView> {
    match frame {
        FrameView::Text(text) => Some(MessageView::Text(text)),
        FrameView::Binary(data) => Some(MessageView::Binary(data)),
        FrameView::Ping(data) => Some(MessageView::Ping(data)),
        FrameView::Pong(data) => Some(MessageView::Pong(data)),
        FrameView::Close => None,
        FrameView::Raw => None,
    }
}

/// The frame in which a message travels.
pub open spec fn frame_of_message(message: MessageView) -> FrameView {
    match message {
        MessageView::Text(text) => FrameView::Text(text),
        MessageView::Binary(data) => FrameView::Binary(data),
        MessageView::Ping(data) => FrameView::Ping(data),
        MessageView::Pong(data) => FrameView::Pong(data),
    }
}

/// Whether two byte vectors hold the same bytes.
fn same_bytes(a: &Vec<u8>, b: &Vec<u8>) -> (same: bool)
    ensures
        same == (a@ == b@),
{
    if a.len() != b.len() {
        return false;
    }
    let mut i: usize = 0;
    while i < a.len()
        invariant
            a.len() == b.len(),
            i <= a.len(),
            forall|j: int| 0 <= j < i ==> a@[j] == b@[j],
        decreases a.len() - i,
    {
        if a[i] != b[i] {
            return false;
        }
        i += 1;
    }
    assert(a@ =~= b@);
    true
}

/// A fresh vector with the same bytes.
fn copy_bytes(a: &Vec<u8>) -> (copy: Vec<u8>)
    ensures
        copy@ == a@,
{
    let mut copy: Vec<u8> = Vec::with_capacity(a.len());
    let mut i: usize = 0;
    while i < a.len()
        invariant
            i <= a.len(),
            copy@ == a@.subrange(0, i as int),
        decreases a.len() - i,
    {
        copy.push(a[i]);
        assert(copy@ =~= a@.subrange(0, i + 1));
        i += 1;
    }
    assert(a@.subrange(0, a.len() as int) =~= a@);
    copy
}

impl Clone for WebSocketMessage {
    fn clone(&self) -> (copy: Self)
        ensures
            copy@ == self@,
    {
        match self {
            WebSocketMessage::Text(text) => WebSocketMessage::Text(text.clone()),
            WebSocketMessage::Binary(data) => WebSocketMessage::Binary(copy_bytes(data)),
            WebSocketMessage::Ping(data) => WebSocketMessage::Ping(copy_bytes(data)),
            WebSocketMessage::Pong(data) => WebSocketMessage::Pong(copy_bytes(data)),
        }
    }
}

impl Clone for Frame {
    fn clone(&self) -> (copy: Self)
        ensures
            copy@ == self@,
    {
        match self {
            Frame::Text(text) => Frame::Text(text.clone()),
            Frame::Binary(data) => Frame::Binary(copy_bytes(data)),
            Frame::Ping(data) => Frame::Ping(copy_bytes(data)),
            Frame::Pong(data) => Frame::Pong(copy_bytes(data)),
            Frame::Close => Frame::Close,
            Frame::Raw => Frame::Raw,
        }
    }
}

impl WebSocketMessage {
    /// Whether `self` and `other` are the same variant with the same payload.
    pub fn same(&self, other: &WebSocketMessage) -> (same: bool)
        ensures
            same == (self@ == other@),
    {
        match (self, other) {
            (WebSocketMessage::Text(a), WebSocketMessage::Text(b)) => *a == *b,
            (WebSocketMessage::Binary(a), WebSocketMessage::Binary(b)) => same_bytes(a, b),
            (WebSocketMessage::Ping(a), WebSocketMessage::Ping(b)) => same_bytes(a, b),
            (WebSocketMessage::Pong(a), WebSocketMessage::Pong(b)) => same_bytes(a, b),
            _ => false,
        }
    }

    /// Takes the message out of a frame. Close frames and raw frames carry
    /// none: they are dropped, never delivered.
    pub fn from_message(message: Frame) -> (converted: Option<Self>)
        ensures
            converted.is_some() == message_of_frame(message@).is_some(),
            converted.is_some() ==> converted.unwrap()@ == message_of_frame(message@).unwrap(),
    {
        match message {
            Frame::Text(text) => Some(Self::Text(text)),
            Frame::Binary(data) => Some(Self::Binary(data)),
            Frame::Ping(data) => Some(Self::Ping(data)),
            Frame::Pong(data) => Some(Self::Pong(data)),
            Frame::Close => None,
            Frame::Raw => None,
        }
    }

    /// Puts the message into the frame that carries it.
    pub fn into_message(self) -> (frame: Frame)
        ensures
            frame@ == frame_of_message(self@),
    {
        match self {
            WebSocketMessage::Text(text) => Frame::Text(text),
            WebSocketMessage::Binary(data) => Frame::Binary(data),
            WebSocketMessage::Ping(data) => Frame::Ping(data),
            WebSocketMessage::Pong(data) => Frame::Pong(data),
        }
    }
}

/// A message that is framed and then unframed comes back unchanged, and the
/// frame of a message is never one that is dropped.
pub proof fn lemma_frame_round_trip(message: MessageView)
    ensures
        message_of_frame(frame_of_message(message)) == Some(message),
{
}

/// A frame that carries a message is the frame of that message.
pub proof fn lemma_message_round_trip(frame: FrameView)
    requires
        message_of_frame(frame).is_some(),
    ensures
        frame_of_message(message_of_frame(frame).unwrap()) == frame,
{
}

} // verus!
