//! Messages carried over one WebSocket connection.

use vstd::prelude::*;

verus! {

/// What a [`Message`] is, mathematically: a frame kind together with its
/// payload. Two frames are equal exactly when they have the same kind and the
/// same payload, element for element.
pub enum Frame {
    Text(Seq<char>),
    Binary(Seq<u8>),
    Ping(Seq<u8>),
    Pong(Seq<u8>),
}

/// A data or control message as the transport delivers it to the handler and
/// accepts it back.
///
/// Close frames are not messages: the transport reports them as an event that
/// ends the connection.
#[derive(Debug, PartialEq, Eq)]
pub enum Message {
    /// A text frame; the payload is valid UTF-8.
    Text(String),
    /// A binary frame.
    Binary(Vec<u8>),
    /// A ping control frame with its application data.
    Ping(Vec<u8>),
    /// A pong control frame with its application data.
    Pong(Vec<u8>),
}

impl View for Message {
    type V = Frame;

    open spec fn view(&self) -> Frame {
        match self {
            Message::Text(text) => Frame::Text(text@),
            Message::Binary(bytes) => Frame::Binary(bytes@),
            Message::Ping(bytes) => Frame::Ping(bytes@),
            Message::Pong(bytes) => Frame::Pong(bytes@),
        }
    }
}

impl Clone for Message {
    /// A message of the same kind with the same payload.
    fn clone(&self) -> (copy: Message)
        ensures
            copy@ == self@,
    {
        match self {
            Message::Text(text) => Message::Text(text.clone()),
            Message::Binary(bytes) => Message::Binary(bytes.clone()),
            Message::Ping(bytes) => Message::Ping(bytes.clone()),
            Message::Pong(bytes) => Message::Pong(bytes.clone()),
        }
    }
}

} // verus!
