//! The frames that travel over a connection, held as plain values.
use vstd::prelude::*;

verus! {

/// One WebSocket message, as read from or written to a connection.
#[derive(Clone, Debug, PartialEq, Eq)]
pub enum Frame {
    /// A UTF-8 text message.
    Text(String),
    /// A binary message.
    Binary(Vec<u8>),
    /// A ping control message with its payload.
    Ping(Vec<u8>),
    /// A pong control message with its payload.
    Pong(Vec<u8>),
    /// A close message, with its status code and reason when one was given.
    Close(Option<(u16, String)>),
}

impl Frame {
    /// A text frame holding `s`.
    pub fn text(s: String) -> (f: Frame)
        ensures
            f == Frame::Text(s),
    {
        Frame::Text(s)
    }

    /// Whether this is a text frame.
    pub fn is_text(&self) -> (r: bool)
        ensures
            r == self is Text,
    {
        match self {
            Frame::Text(_) => true,
            _ => false,
        }
    }

    /// The text of a text frame; `None` for any other frame.
    pub fn as_text(&self) -> (r: Option<&String>)
        ensures
            self is Text <==> r is Some,
            self is Text ==> r->0@ == self->Text_0@,
    {
        match self {
            Frame::Text(s) => Some(s),
            _ => None,
        }
    }
}

} // verus!
