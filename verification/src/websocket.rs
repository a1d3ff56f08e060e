//! The connection handle and the service that makes one.
//!
//! Neither touches a socket. The surroundings create the socket, register
//! the listeners, and report each event of the transport to the handle; the
//! handle answers with the callback to invoke, the frame to transmit, or
//! the teardown to perform.

use crate::event::{Event, EventKind, Output};
use crate::frame::{dispatch, ConnectionMode, FrameView, RawFrame};
use crate::model::{ConnectionState, SendView, TaskView, Teardown};
use crate::status::{WebSocketError, WebSocketStatus};
use vstd::prelude::*;

verus! {

/// What a send asks of the surroundings.
#[derive(Clone, Debug, PartialEq, Eq)]
pub enum SendOutcome {
    /// Nothing: the payload had no encoding.
    Skipped,
    /// Hand this frame to the transport, and report whether it took it.
    Transmit(RawFrame),
    /// Invoke the status sink with this status.
    Notify(WebSocketStatus),
}

impl View for SendOutcome {
    type V = SendView;

    open spec fn view(&self) -> SendView {
        match *self {
            SendOutcome::Skipped => SendView::Skipped,
            SendOutcome::Transmit(frame) => SendView::Transmit(frame@),
            SendOutcome::Notify(status) => SendView::Notify(status),
        }
    }
}

/// The frame that a text payload is sent in, if the payload has an encoding.
pub open spec fn text_payload<E>(data: Result<String, E>) -> Option<FrameView> {
    match data {
        Ok(body) => Some(FrameView::Text(body@)),
        Err(_) => None,
    }
}

/// The frame that a binary payload is sent in, if the payload has an
/// encoding.
pub open spec fn binary_payload<E>(data: Result<Vec<u8>, E>) -> Option<FrameView> {
    match data {
        Ok(body) => Some(FrameView::Binary(body@)),
        Err(_) => None,
    }
}

/// A handle on one connection. The socket stays as it is until the handle
/// is told to disconnect.
#[must_use]
#[derive(Debug)]
pub struct WebSocketTask {
    mode: ConnectionMode,
    state: ConnectionState,
    listening: bool,
}

impl View for WebSocketTask {
    type V = TaskView;

    closed spec fn view(&self) -> TaskView {
        TaskView { mode: self.mode, state: self.state, listening: self.listening }
    }
}

impl WebSocketTask {
    /// Every handle is well-formed.
    #[verifier::type_invariant]
    pub open spec fn inv(self) -> bool {
        self@.wf()
    }

    fn new(mode: ConnectionMode) -> (task: WebSocketTask)
        ensures
            task@ == TaskView::fresh(mode),
    {
        WebSocketTask { mode, state: ConnectionState::Connecting, listening: true }
    }

    /// The frame kinds this connection decodes.
    pub fn mode(&self) -> (mode: ConnectionMode)
        ensures
            mode == self@.mode,
    {
        self.mode
    }

    /// Where the connection stands.
    pub fn state(&self) -> (state: ConnectionState)
        ensures
            state == self@.state,
    {
        self.state
    }

    /// Whether the handle still hears the transport.
    pub fn is_listening(&self) -> (listening: bool)
        ensures
            listening == self@.listening,
    {
        self.listening
    }

    /// Whether the socket is connecting or open, so that closing it is
    /// meaningful.
    pub fn is_active(&self) -> (active: bool)
        ensures
            active == self@.state.active(),
    {
        match self.state {
            ConnectionState::Connecting | ConnectionState::Open => true,
            ConnectionState::Errored | ConnectionState::Closed => false,
        }
    }

    /// The kinds of event to keep a listener registered for.
    pub fn subscriptions(&self) -> (kinds: Vec<EventKind>)
        ensures
            kinds@ == self@.subscriptions(),
    {
        let mut kinds: Vec<EventKind> = Vec::new();
        if self.listening {
            kinds.push(EventKind::Open);
            kinds.push(EventKind::Close);
            kinds.push(EventKind::Error);
            kinds.push(EventKind::Message);
        }
        kinds
    }

    /// Takes one event of the transport. The result is the callback to
    /// invoke for it, if any.
    pub fn receive(&mut self, event: Event) -> (output: Option<Output>)
        ensures
            final(self)@ == old(self)@.receive(event@),
            match output {
                Some(output) => old(self)@.output(event@) == Some(output@),
                None => old(self)@.output(event@) is None,
            },
    {
        if !self.listening {
            return None;
        }
        match event {
            Event::Open => {
                if let ConnectionState::Connecting = self.state {
                    self.state = ConnectionState::Open;
                }
                Some(Output::Status(WebSocketStatus::Opened))
            },
            Event::Close => {
                self.state = ConnectionState::Closed;
                Some(Output::Status(WebSocketStatus::Closed))
            },
            Event::Error => {
                if self.is_active() {
                    self.state = ConnectionState::Errored;
                }
                Some(Output::Status(WebSocketStatus::Error))
            },
            Event::Message(frame) => match dispatch(self.mode, frame) {
                Some(message) => Some(Output::Message(message)),
                None => None,
            },
        }
    }

    fn outbound(&self, frame: RawFrame) -> (outcome: SendOutcome)
        ensures
            outcome@ == self@.outbound(Some(frame@)),
    {
        match self.state {
            ConnectionState::Open => SendOutcome::Transmit(frame),
            _ => SendOutcome::Notify(WebSocketStatus::Error),
        }
    }

    /// Sends data as a text frame. The data is the outcome of encoding a
    /// value as text; a failed encoding is skipped, whatever the failure.
    pub fn send<E>(&mut self, data: Result<String, E>) -> (outcome: SendOutcome)
        ensures
            final(self)@ == old(self)@,
            outcome@ == old(self)@.outbound(text_payload(data)),
    {
        match data {
            Ok(body) => self.outbound(RawFrame::Text(body)),
            Err(_) => SendOutcome::Skipped,
        }
    }

    /// Sends data as a binary frame. The data is the outcome of encoding a
    /// value as bytes; a failed encoding is skipped, whatever the failure.
    pub fn send_binary<E>(&mut self, data: Result<Vec<u8>, E>) -> (outcome: SendOutcome)
        ensures
            final(self)@ == old(self)@,
            outcome@ == old(self)@.outbound(binary_payload(data)),
    {
        match data {
            Ok(body) => self.outbound(RawFrame::Binary(body)),
            Err(_) => SendOutcome::Skipped,
        }
    }

    /// Takes the transport's answer to a frame handed to it: a frame that it
    /// refused is reported as an `Error` status, one that it took is not
    /// reported at all.
    pub fn send_result(&self, accepted: bool) -> (status: Option<WebSocketStatus>)
        ensures
            status == (if accepted {
                None
            } else {
                Some(WebSocketStatus::Error)
            }),
    {
        if accepted {
            None
        } else {
            Some(WebSocketStatus::Error)
        }
    }

    /// Tears the handle down: the socket is asked to close if it is
    /// connecting or open, and the listeners are released. From then on the
    /// handle hears no event.
    pub fn disconnect(&mut self) -> (teardown: Teardown)
        ensures
            final(self)@ == old(self)@.disconnect(),
            teardown == old(self)@.teardown(),
    {
        proof {
            use_type_invariant(&*self);
        }
        if !self.listening {
            return Teardown::Nothing;
        }
        let teardown = if self.is_active() {
            Teardown::CloseAndRelease
        } else {
            Teardown::Release
        };
        if self.is_active() {
            self.state = ConnectionState::Closed;
        }
        self.listening = false;
        teardown
    }
}

/// Whether `result` is what a connect in the given mode returns when the
/// creation of the socket ended as `created` says: a fresh handle if the
/// socket exists, the transport's reason as a creation error if not.
pub open spec fn connects(
    created: Result<(), String>,
    mode: ConnectionMode,
    result: Result<WebSocketTask, WebSocketError>,
) -> bool {
    match created {
        Ok(_) => result matches Ok(task) && task@ == TaskView::fresh(mode),
        Err(reason) => result matches Err(error) && error.reason() == reason@,
    }
}

/// The service that connects.
#[derive(Default, Debug)]
pub struct WebSocketService {}

impl WebSocketService {
    /// Makes the handle of a connection that decodes text and binary frames.
    pub fn connect(created: Result<(), String>) -> (result: Result<WebSocketTask, WebSocketError>)
        ensures
            connects(created, ConnectionMode::Both, result),
    {
        Self::connect_common(created, ConnectionMode::Both)
    }

    /// Makes the handle of a connection that decodes binary frames only.
    pub fn connect_binary(created: Result<(), String>) -> (result: Result<
        WebSocketTask,
        WebSocketError,
    >)
        ensures
            connects(created, ConnectionMode::BinaryOnly, result),
    {
        Self::connect_common(created, ConnectionMode::BinaryOnly)
    }

    /// Makes the handle of a connection that decodes text frames only.
    pub fn connect_text(created: Result<(), String>) -> (result: Result<
        WebSocketTask,
        WebSocketError,
    >)
        ensures
            connects(created, ConnectionMode::TextOnly, result),
    {
        Self::connect_common(created, ConnectionMode::TextOnly)
    }

    /// Makes the handle of a connection in the given mode, or passes on why
    /// there is no socket to hold.
    pub fn connect_common(created: Result<(), String>, mode: ConnectionMode) -> (result: Result<
        WebSocketTask,
        WebSocketError,
    >)
        ensures
            connects(created, mode, result),
    {
        match created {
            Ok(_) => Ok(WebSocketTask::new(mode)),
            Err(reason) => Err(WebSocketError::CreationError(reason)),
        }
    }
}

} // verus!
