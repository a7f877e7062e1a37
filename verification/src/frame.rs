//! What travels on the channel: frames as they arrive, and close signals
//! as they are sent.

use crate::bytes::copy_bytes;
use crate::envelope::{encode_bool_result, outcome_byte};
use vstd::prelude::*;
use vstd::string::StringSliceAdditionalSpecFns;

verus! {

/// Close code of a session that ran to its end.
pub const CLOSE_NORMAL: u16 = 1000;

/// Close code of a failure beneath the protocol: I/O, handshake, framing.
pub const CLOSE_TRANSPORT: u16 = 1002;

/// Close code of a session that the protocol itself rejected.
pub const CLOSE_POLICY: u16 = 1008;

/// The kind of a frame on the channel.
#[derive(Debug, Clone, Copy, PartialEq, Eq, Structural)]
pub enum OpCode {
    Continuation,
    Text,
    Binary,
    Close,
    Ping,
    Pong,
}

/// One message as the channel delivers it. The payload of a close frame is
/// the close code, two bytes, followed by the reason.
#[derive(Debug, Clone)]
pub struct Frame {
    pub opcode: OpCode,
    pub payload: Vec<u8>,
}

/// A close signal to send: a code and the bytes of a reason.
#[derive(Debug, Clone)]
pub struct Close {
    pub code: u16,
    pub reason: Vec<u8>,
}

impl Close {
    /// The close signal that ends a session normally and reports `outcome`
    /// in the last byte of its reason.
    pub fn reporting(outcome: bool) -> (close: Close)
        ensures
            close.code == CLOSE_NORMAL,
            close.reason@ == seq![outcome_byte(outcome)],
    {
        Close { code: CLOSE_NORMAL, reason: encode_bool_result(outcome) }
    }

    /// The close signal that ends a login normally; its reason is the text
    /// `done`.
    pub fn done() -> (close: Close)
        ensures
            close.code == CLOSE_NORMAL,
            close.reason@ == "done".spec_bytes(),
    {
        Close { code: CLOSE_NORMAL, reason: copy_bytes("done".as_bytes()) }
    }
}

} // verus!
