//! Forwarding of a call's live audio to a websocket endpoint.
//!
//! The realtime side of a call hands fixed-size frames to a bounded channel
//! without ever waiting; a task on an async runtime drains it onto the
//! connection, interleaved with text messages from a separate control channel.
//! Sessions are reached by key through a registry, which keeps retired
//! sessions for a grace window before they are freed.
//!
//! - [`tap`]: decisions of the realtime callback, channel sizing, frame buffers.
//! - [`fork`]: the two channels and the cancellation signal of a session.
//! - [`connection`]: the protocol state machine of the outbound connection.
//! - [`close`]: close codes and reasons, and text decoding.
//! - [`registry`], [`session`], [`commands`]: sessions by key and the commands
//!   that reach them.
//! - [`endpoint`]: the extra handshake headers of an endpoint.
//! - [`events`]: notifications to the observer.

pub mod close;
pub mod commands;
pub mod connection;
pub mod endpoint;
pub mod events;
pub mod fork;
pub mod frame;
pub mod registry;
pub mod session;
pub mod tap;
