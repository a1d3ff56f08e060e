//! Inbound frames and how a connection mode turns them into messages for the
//! owner of the connection.

use crate::format::{binary_view, text_view, Binary, FormatError, Text};
use vstd::prelude::*;

verus! {

/// One inbound or outbound unit of the connection, tagged by its kind.
#[derive(Clone, Debug, PartialEq, Eq)]
pub enum RawFrame {
    /// A text frame.
    Text(String),
    /// A binary frame.
    Binary(Vec<u8>),
}

/// The mathematical content of a frame.
pub enum FrameView {
    Text(Seq<char>),
    Binary(Seq<u8>),
}

impl View for RawFrame {
    type V = FrameView;

    open spec fn view(&self) -> FrameView {
        match *self {
            RawFrame::Text(body) => FrameView::Text(body@),
            RawFrame::Binary(body) => FrameView::Binary(body@),
        }
    }
}

/// A decoded frame as it is handed to the message callback: the text or the
/// binary representation, each of which may hold a decode error.
#[derive(Debug, PartialEq, Eq)]
pub enum Message {
    /// The result of the text decode path.
    Text(Text),
    /// The result of the binary decode path.
    Binary(Binary),
}

/// The mathematical content of a message.
pub enum MessageView {
    Text(Result<Seq<char>, FormatError>),
    Binary(Result<Seq<u8>, FormatError>),
}

impl View for Message {
    type V = MessageView;

    open spec fn view(&self) -> MessageView {
        match *self {
            Message::Text(text) => MessageView::Text(text_view(text)),
            Message::Binary(binary) => MessageView::Binary(binary_view(binary)),
        }
    }
}

/// Which kinds of frame a connection decodes. It is fixed when the
/// connection is made; frames of the other kind are dropped without a word.
#[derive(Clone, Copy, Debug, PartialEq, Eq, Structural)]
pub enum ConnectionMode {
    /// Text and binary frames are both decoded.
    Both,
    /// Only binary frames are decoded.
    BinaryOnly,
    /// Only text frames are decoded.
    TextOnly,
}

impl ConnectionMode {
    /// Whether a connection in this mode decodes the given frame.
    pub open spec fn accepts(self, frame: FrameView) -> bool {
        match self {
            ConnectionMode::Both => true,
            ConnectionMode::BinaryOnly => frame is Binary,
            ConnectionMode::TextOnly => frame is Text,
        }
    }
}

/// The text decode path: a text frame yields its body, a binary frame the
/// error `ReceivedBinaryForText`.
pub open spec fn decode_text(frame: FrameView) -> Result<Seq<char>, FormatError> {
    match frame {
        FrameView::Text(body) => Ok(body),
        FrameView::Binary(_) => Err(FormatError::ReceivedBinaryForText),
    }
}

/// The binary decode path: a binary frame yields its body, a text frame the
/// error `ReceivedTextForBinary`.
pub open spec fn decode_binary(frame: FrameView) -> Result<Seq<u8>, FormatError> {
    match frame {
        FrameView::Binary(body) => Ok(body),
        FrameView::Text(_) => Err(FormatError::ReceivedTextForBinary),
    }
}

/// The decode path that matches the frame's own kind.
pub open spec fn decode_both(frame: FrameView) -> MessageView {
    match frame {
        FrameView::Text(_) => MessageView::Text(decode_text(frame)),
        FrameView::Binary(_) => MessageView::Binary(decode_binary(frame)),
    }
}

/// What the message callback receives for one inbound frame: the frame
/// decoded along its own path if the mode accepts it, and nothing otherwise.
pub open spec fn delivery(mode: ConnectionMode, frame: FrameView) -> Option<MessageView> {
    if mode.accepts(frame) {
        Some(decode_both(frame))
    } else {
        None
    }
}

impl RawFrame {
    /// Whether this is a text frame.
    pub fn is_text(&self) -> (answer: bool)
        ensures
            answer == (self@ is Text),
    {
        match self {
            RawFrame::Text(_) => true,
            RawFrame::Binary(_) => false,
        }
    }

    /// Whether this is a binary frame.
    pub fn is_binary(&self) -> (answer: bool)
        ensures
            answer == (self@ is Binary),
    {
        !self.is_text()
    }
}

/// Decodes a frame where binary is expected.
pub fn process_binary(frame: RawFrame) -> (binary: Binary)
    ensures
        binary_view(binary) == decode_binary(frame@),
{
    match frame {
        RawFrame::Binary(body) => Ok(body),
        RawFrame::Text(_) => Err(FormatError::ReceivedTextForBinary),
    }
}

/// Decodes a frame where text is expected.
pub fn process_text(frame: RawFrame) -> (text: Text)
    ensures
        text_view(text) == decode_text(frame@),
{
    match frame {
        RawFrame::Text(body) => Ok(body),
        RawFrame::Binary(_) => Err(FormatError::ReceivedBinaryForText),
    }
}

/// Decodes a frame along the path of its own kind.
pub fn process_both(frame: RawFrame) -> (message: Message)
    ensures
        message@ == decode_both(frame@),
{
    if frame.is_text() {
        Message::Text(process_text(frame))
    } else {
        Message::Binary(process_binary(frame))
    }
}

/// Runs the dispatcher of the given mode on one inbound frame. The result
/// is what the message callback is to be invoked with; `None` means that the
/// frame is dropped and the callback is not invoked.
pub fn dispatch(mode: ConnectionMode, frame: RawFrame) -> (message: Option<Message>)
    ensures
        match message {
            Some(decoded) => delivery(mode, frame@) == Some(decoded@),
            None => delivery(mode, frame@) is None,
        },
{
    match mode {
        ConnectionMode::Both => Some(process_both(frame)),
        ConnectionMode::BinaryOnly => {
            if frame.is_binary() {
                Some(Message::Binary(process_binary(frame)))
            } else {
                None
            }
        },
        ConnectionMode::TextOnly => {
            if frame.is_text() {
                Some(Message::Text(process_text(frame)))
            } else {
                None
            }
        },
    }
}

} // verus!
