//! Password-authenticated registration, login and account deletion between
//! a client and a server, over a framed duplex channel.
//!
//! The password never travels: both sides run the OPAQUE protocol, whose
//! engine is the crate `opaque_ke`. This library is what stands around the
//! engine: the state machines of both sides, the form of their messages,
//! the decisions of a session and the way a session's end is reported.
//! The channel and the store are the caller's.
//!
//! - [`envelope`]: the first message of every flow and the one-byte outcome.
//! - [`frame`]: frames as they arrive and close signals as they are sent.
//! - [`error`]: the errors of both sides and the close signal of each.
//! - [`engine`]: the boundary to the OPAQUE engine.
//! - [`client`]: the client's state machines and the decisions of its
//!   sessions.
//! - [`server`]: the server's state machines, the decisions of its
//!   sessions and what they do to the store.
//! - [`local`]: both sides of a flow in one process.
//! - [`bytes`]: plain work on byte strings.

pub mod bytes;
pub mod client;
pub mod engine;
pub mod envelope;
pub mod error;
pub mod frame;
pub mod local;
pub mod server;

pub use engine::Scheme;
pub use envelope::WithUsername;
