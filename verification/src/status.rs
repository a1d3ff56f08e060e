//! Connection-level notifications and the one failure a connect call can
//! return.

use vstd::prelude::*;

verus! {

/// The status of a connection, as reported on the status sink.
#[derive(Clone, Copy, Debug, PartialEq, Eq, Structural)]
pub enum WebSocketStatus {
    /// The connection has opened.
    Opened,
    /// The connection has closed.
    Closed,
    /// The connection has failed, or refused a send.
    Error,
}

/// An error met by a connect call.
#[derive(Clone, Debug, PartialEq, Eq)]
pub enum WebSocketError {
    /// The socket could not be created at all; the text is the transport's
    /// own explanation.
    CreationError(String),
}

impl WebSocketError {
    /// The transport's explanation of the failure.
    pub open spec fn reason(self) -> Seq<char> {
        match self {
            WebSocketError::CreationError(reason) => reason@,
        }
    }

    /// Renders the error: a creation error reads as its reason, verbatim.
    pub fn message(&self) -> (text: String)
        ensures
            text@ == self.reason(),
    {
        match self {
            WebSocketError::CreationError(reason) => reason.clone(),
        }
    }
}

} // verus!
