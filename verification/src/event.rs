//! What the transport reports to a connection handle, and what the handle
//! passes on to its owner.

use crate::frame::{FrameView, Message, MessageView, RawFrame};
use crate::status::WebSocketStatus;
use vstd::prelude::*;

verus! {

/// The four kinds of transport event a handle listens for.
#[derive(Clone, Copy, Debug, PartialEq, Eq, Structural)]
pub enum EventKind {
    Open,
    Close,
    Error,
    Message,
}

impl EventKind {
    /// The name under which the transport knows this kind of event.
    pub open spec fn label(self) -> Seq<char> {
        match self {
            EventKind::Open => "open"@,
            EventKind::Close => "close"@,
            EventKind::Error => "error"@,
            EventKind::Message => "message"@,
        }
    }

    /// The name to register a listener of this kind under.
    pub fn name(&self) -> (name: &'static str)
        ensures
            name@ == self.label(),
    {
        match self {
            EventKind::Open => "open",
            EventKind::Close => "close",
            EventKind::Error => "error",
            EventKind::Message => "message",
        }
    }
}

/// One event of the transport.
#[derive(Clone, Debug, PartialEq, Eq)]
pub enum Event {
    /// The connection has been established.
    Open,
    /// The connection has been closed.
    Close,
    /// The connection has failed.
    Error,
    /// A frame has arrived.
    Message(RawFrame),
}

/// The mathematical content of an event.
pub enum EventView {
    Open,
    Close,
    Error,
    Message(FrameView),
}

impl View for Event {
    type V = EventView;

    open spec fn view(&self) -> EventView {
        match *self {
            Event::Open => EventView::Open,
            Event::Close => EventView::Close,
            Event::Error => EventView::Error,
            Event::Message(frame) => EventView::Message(frame@),
        }
    }
}

impl EventView {
    /// The kind of listener that hears this event.
    pub open spec fn kind(self) -> EventKind {
        match self {
            EventView::Open => EventKind::Open,
            EventView::Close => EventKind::Close,
            EventView::Error => EventKind::Error,
            EventView::Message(_) => EventKind::Message,
        }
    }
}

/// One invocation of a callback of the owner.
#[derive(Debug, PartialEq, Eq)]
pub enum Output {
    /// Invoke the status sink with this status.
    Status(WebSocketStatus),
    /// Invoke the message callback with this message.
    Message(Message),
}

/// The mathematical content of an output.
pub enum OutputView {
    Status(WebSocketStatus),
    Message(MessageView),
}

impl View for Output {
    type V = OutputView;

    open spec fn view(&self) -> OutputView {
        match *self {
            Output::Status(status) => OutputView::Status(status),
            Output::Message(message) => OutputView::Message(message@),
        }
    }
}

} // verus!
