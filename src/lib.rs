//! Cooperative multipart messaging over non-blocking, non-thread-safe
//! message-queue sockets.
//!
//! The native socket, the reactor and the worker thread stay outside: each
//! state machine here takes one step at a time, hands out the frame to send
//! or asks for a frame to be read, and is told what the native call gave.
//!
//! - `send`, `recv`: one multipart out or in, frame by frame, suspending
//!   when the socket would block, with a guard against reentrant polls.
//! - `sink`, `stream`, `sink_stream`, `future`: a bounded queue of outgoing
//!   multiparts, an endless stream of incoming ones, both on one socket, and
//!   one-shot sends and receives that hand the socket back.
//! - `readiness`: reconciling the reactor's edges with the native event mask.
//! - `worker`, `pollable`, `poll_kind`, `schedule`, `wakeup`, `remote`: the
//!   multiplexing worker that owns every socket, and its clients.
//! - `laws`: framing, ordering, back-pressure and wakeup properties.

pub mod error;
pub mod future;
pub mod laws;
pub mod message;
pub mod poll_kind;
pub mod pollable;
pub mod readiness;
pub mod remote;
pub mod schedule;
pub mod recv;
pub mod send;
pub mod sink;
pub mod sink_stream;
pub mod stream;
pub mod wakeup;
pub mod worker;
