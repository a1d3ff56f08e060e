//! The connection handle as a state machine over mathematical values: what
//! each transport event, send and disconnect does to it, and what it asks of
//! its surroundings in return.

use crate::event::{EventKind, EventView, OutputView};
use crate::frame::{delivery, ConnectionMode, FrameView};
use crate::status::WebSocketStatus;
use vstd::prelude::*;

verus! {

/// Where a connection stands. `Errored` and `Closed` are final: no event
/// leads back to `Connecting` or `Open`.
#[derive(Clone, Copy, Debug, PartialEq, Eq, Structural)]
pub enum ConnectionState {
    /// The socket exists and the connection is being established.
    Connecting,
    /// The connection is established.
    Open,
    /// The connection has failed.
    Errored,
    /// The connection is closed, or a close has been requested.
    Closed,
}

impl ConnectionState {
    /// Whether closing the socket is meaningful in this state.
    pub open spec fn active(self) -> bool {
        self is Connecting || self is Open
    }

    /// The state that an event of the transport leads to.
    pub open spec fn after(self, event: EventView) -> ConnectionState {
        match event {
            EventView::Open => if self is Connecting {
                ConnectionState::Open
            } else {
                self
            },
            EventView::Error => if self.active() {
                ConnectionState::Errored
            } else {
                self
            },
            EventView::Close => ConnectionState::Closed,
            EventView::Message(_) => self,
        }
    }
}

/// The status that an event of the transport is reported as, if it is one
/// of the three that concern the connection as a whole.
pub open spec fn status_of(event: EventView) -> Option<WebSocketStatus> {
    match event {
        EventView::Open => Some(WebSocketStatus::Opened),
        EventView::Close => Some(WebSocketStatus::Closed),
        EventView::Error => Some(WebSocketStatus::Error),
        EventView::Message(_) => None,
    }
}

/// What a send asks of the surroundings.
pub enum SendView {
    /// Nothing: the payload had no encoding.
    Skipped,
    /// Hand this frame to the transport.
    Transmit(FrameView),
    /// Invoke the status sink with this status.
    Notify(WebSocketStatus),
}

/// What a disconnect asks of the surroundings.
#[derive(Clone, Copy, Debug, PartialEq, Eq, Structural)]
pub enum Teardown {
    /// Nothing: the handle was torn down before.
    Nothing,
    /// Unregister the four listeners.
    Release,
    /// Request a close of the socket and unregister the four listeners, as
    /// one step: no event may be heard in between.
    CloseAndRelease,
}

impl Teardown {
    /// Whether the socket is asked to close.
    pub open spec fn closes(self) -> bool {
        self is CloseAndRelease
    }
}

/// The mathematical content of a connection handle.
pub struct TaskView {
    /// The frame kinds that are decoded.
    pub mode: ConnectionMode,
    /// Where the connection stands.
    pub state: ConnectionState,
    /// Whether the four listeners are registered with the transport.
    pub listening: bool,
}

impl TaskView {
    /// A socket that can still be closed is always listened to: the
    /// listeners live exactly as long as the handle's hold on the socket.
    pub open spec fn wf(self) -> bool {
        self.state.active() ==> self.listening
    }

    /// The handle that a successful connect returns.
    pub open spec fn fresh(mode: ConnectionMode) -> TaskView {
        TaskView { mode, state: ConnectionState::Connecting, listening: true }
    }

    /// The kinds of event the handle is registered for: all four or none.
    pub open spec fn subscriptions(self) -> Seq<EventKind> {
        if self.listening {
            seq![EventKind::Open, EventKind::Close, EventKind::Error, EventKind::Message]
        } else {
            Seq::empty()
        }
    }

    /// The callback invocation that one event gives rise to, if any. Each
    /// open, close and error is reported once; a frame is decoded as the mode
    /// says. A handle that no longer listens hears nothing.
    pub open spec fn output(self, event: EventView) -> Option<OutputView> {
        if !self.listening {
            None
        } else {
            match event {
                EventView::Message(frame) => match delivery(self.mode, frame) {
                    Some(message) => Some(OutputView::Message(message)),
                    None => None,
                },
                _ => match status_of(event) {
                    Some(status) => Some(OutputView::Status(status)),
                    None => None,
                },
            }
        }
    }

    /// The handle after one event.
    pub open spec fn receive(self, event: EventView) -> TaskView {
        if self.listening {
            TaskView { state: self.state.after(event), ..self }
        } else {
            self
        }
    }

    /// What a send of the given payload asks for. A payload without an
    /// encoding is skipped; an encoded one goes to the transport if the
    /// connection is open, and is answered with an `Error` status if not.
    pub open spec fn outbound(self, payload: Option<FrameView>) -> SendView {
        match payload {
            None => SendView::Skipped,
            Some(frame) => if self.state is Open {
                SendView::Transmit(frame)
            } else {
                SendView::Notify(WebSocketStatus::Error)
            },
        }
    }

    /// What a disconnect asks for.
    pub open spec fn teardown(self) -> Teardown {
        if !self.listening {
            Teardown::Nothing
        } else if self.state.active() {
            Teardown::CloseAndRelease
        } else {
            Teardown::Release
        }
    }

    /// The handle after a disconnect.
    pub open spec fn disconnect(self) -> TaskView {
        TaskView {
            mode: self.mode,
            state: if self.state.active() {
                ConnectionState::Closed
            } else {
                self.state
            },
            listening: false,
        }
    }

    /// The handle after a sequence of events, the earliest first.
    pub open spec fn run(self, events: Seq<EventView>) -> TaskView
        decreases events.len(),
    {
        if events.len() == 0 {
            self
        } else {
            self.run(events.drop_last()).receive(events.last())
        }
    }

    /// The callback invocations that a sequence of events gives rise to, in
    /// the order in which they are made.
    pub open spec fn outputs(self, events: Seq<EventView>) -> Seq<OutputView>
        decreases events.len(),
    {
        if events.len() == 0 {
            Seq::empty()
        } else {
            let earlier = self.outputs(events.drop_last());
            match self.run(events.drop_last()).output(events.last()) {
                Some(output) => earlier.push(output),
                None => earlier,
            }
        }
    }
}

} // verus!
