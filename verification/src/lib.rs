//! The connection-handle core of a browser WebSocket service.

pub mod event;
pub mod format;
pub mod frame;
pub mod lemmas;
pub mod model;
pub mod status;
pub mod websocket;
