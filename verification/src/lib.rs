//! The session layer of an exchange client: request signing shared by
//! every authenticated call, the REST transport's URL, header and status
//! logic, and the socket session — a command channel drained by a
//! dispatch loop, inbound-frame classification, and the keepalive
//! cadence. The I/O around these — sending requests, owning the socket,
//! decoding typed responses — lives outside this crate and hands plain
//! values in and out.

pub mod channel;
pub mod classify;
pub mod clock;
pub mod errors;
pub mod events;
pub mod frames;
pub mod model;
pub mod numfmt;
pub mod signer;
pub mod strutil;
pub mod transport;
pub mod websockets;
