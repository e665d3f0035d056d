//! A sans-I/O engine for a JSON-RPC bridge over a header-delimited duplex
//! byte channel.
//!
//! The crate holds the parts of such a bridge that decide something: how a
//! message is framed and how a frame is read back, how a request envelope is
//! built and a response told apart from a notification, when a failed open is
//! tried again, which subscription toggle is owed to the backend, and what the
//! long-lived event bridge does next. Nothing here touches a pipe, sleeps or
//! starts a thread: the host performs those and reports back what happened.
//!
//! From the wire upwards:
//!
//! - [`text`]: decimal numbers, white space and letter case in bytes;
//! - [`framing`]: the frame, its header and its length field;
//! - [`decoder`]: reading one frame, a read at a time;
//! - [`json`]: JSON documents and the boundary to `serde_json`;
//! - [`envelope`]: requests, responses and notifications;
//! - [`call`]: one request over a connection of its own;
//! - [`subscription`] and [`retry`]: what is owed to the backend, and when
//!   an open is tried again;
//! - [`events`], [`bridge`]: the event bridge and what it tells its host;
//! - [`surface`], [`diag`]: the words and previews that the host shows;
//! - [`clock`]: the time from which request identifiers are taken.

pub mod bridge;
pub mod call;
pub mod clock;
pub mod decoder;
pub mod diag;
pub mod envelope;
pub mod events;
pub mod framing;
pub mod json;
pub mod retry;
pub mod subscription;
pub mod surface;
pub mod text;
