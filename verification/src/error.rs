//! The errors of both sides, with the close signal that each maps to.

use crate::bytes::copy_bytes;
use crate::envelope::{close_outcome, MalformedEnvelope};
use crate::frame::{Close, Frame, OpCode, CLOSE_POLICY, CLOSE_TRANSPORT};
use opaque_ke::errors::ProtocolError;
use vstd::prelude::*;
use vstd::string::StringSliceAdditionalSpecFns;

verus! {

/// Why a client's session ended without a result.
#[derive(Debug)]
pub enum ClientError {
    /// The server closed the channel before the protocol was through.
    ClosedEarly,
    /// The engine rejected a password or a message.
    ProtocolError(ProtocolError),
    /// The login did not authenticate the user.
    NotAuthenticated,
    /// The channel failed; the text says how.
    Websocket(String),
    /// Reading or writing failed; the text says how.
    IOError(String),
    /// The HTTP exchange that opens the channel failed; the text says how.
    HyperError(String),
    /// A frame of a kind that the protocol does not expect at this point.
    UnexpectedFrame(OpCode, Vec<u8>),
}

/// Why a server's session ended without a result.
#[derive(Debug)]
pub enum ServerError {
    /// The client closed the channel before the protocol was through.
    ClosedEarly,
    /// A record for the username is already stored.
    UserAlreadyExists,
    /// No record for the username is stored.
    UserDoesNotExist,
    /// The engine rejected a message.
    ProtocolError(ProtocolError),
    /// The channel failed; the text says how.
    Websocket(String),
    /// Reading or writing failed; the text says how.
    IOError(String),
    /// The HTTP exchange that opens the channel failed; the text says how.
    HyperError(String),
    /// A frame of a kind that the protocol does not expect at this point.
    UnexpectedFrame(OpCode, Vec<u8>),
    /// The first message is no envelope.
    Serialization(MalformedEnvelope),
    /// The store failed; the text says how.
    Database(String),
}

impl From<Frame> for ClientError {
    /// The error that stands for a frame of an unexpected kind.
    fn from(value: Frame) -> (error: Self) {
        ClientError::UnexpectedFrame(value.opcode, value.payload)
    }
}

impl vstd::std_specs::convert::FromSpecImpl<Frame> for ClientError {
    open spec fn obeys_from_spec() -> bool {
        true
    }

    open spec fn from_spec(value: Frame) -> Self {
        ClientError::UnexpectedFrame(value.opcode, value.payload)
    }
}

impl From<Frame> for ServerError {
    /// The error that stands for a frame of an unexpected kind.
    fn from(value: Frame) -> (error: Self) {
        ServerError::UnexpectedFrame(value.opcode, value.payload)
    }
}

impl vstd::std_specs::convert::FromSpecImpl<Frame> for ServerError {
    open spec fn obeys_from_spec() -> bool {
        true
    }

    open spec fn from_spec(value: Frame) -> Self {
        ServerError::UnexpectedFrame(value.opcode, value.payload)
    }
}

impl ClientError {
    /// The close code that stands for this error.
    pub open spec fn code(&self) -> u16 {
        match self {
            ClientError::ClosedEarly => CLOSE_POLICY,
            ClientError::ProtocolError(_) => CLOSE_POLICY,
            ClientError::NotAuthenticated => CLOSE_POLICY,
            ClientError::Websocket(_) => CLOSE_TRANSPORT,
            ClientError::IOError(_) => CLOSE_TRANSPORT,
            ClientError::HyperError(_) => CLOSE_TRANSPORT,
            ClientError::UnexpectedFrame(_, _) => CLOSE_POLICY,
        }
    }

    /// The text that describes this error to the peer.
    pub open spec fn text(&self) -> &'static str {
        match self {
            ClientError::ClosedEarly => "Communication terminated early",
            ClientError::ProtocolError(_) => "Protocol error",
            ClientError::NotAuthenticated => "Failed to authenticate",
            ClientError::Websocket(_) => "Websocket connection error",
            ClientError::IOError(_) => "Error with io",
            ClientError::HyperError(_) => "Error with http communication",
            ClientError::UnexpectedFrame(_, _) => "Received unexpected frame",
        }
    }

    /// The close code that stands for this error.
    pub fn to_code(&self) -> (code: u16)
        ensures
            code == self.code(),
            code == CLOSE_TRANSPORT || code == CLOSE_POLICY,
    {
        match self {
            ClientError::ClosedEarly => CLOSE_POLICY,
            ClientError::ProtocolError(_) => CLOSE_POLICY,
            ClientError::NotAuthenticated => CLOSE_POLICY,
            ClientError::Websocket(_) => CLOSE_TRANSPORT,
            ClientError::IOError(_) => CLOSE_TRANSPORT,
            ClientError::HyperError(_) => CLOSE_TRANSPORT,
            ClientError::UnexpectedFrame(_, _) => CLOSE_POLICY,
        }
    }

    /// The text that describes this error to the peer.
    pub fn reason(&self) -> (text: &'static str)
        ensures
            text@ == self.text()@,
    {
        match self {
            ClientError::ClosedEarly => "Communication terminated early",
            ClientError::ProtocolError(_) => "Protocol error",
            ClientError::NotAuthenticated => "Failed to authenticate",
            ClientError::Websocket(_) => "Websocket connection error",
            ClientError::IOError(_) => "Error with io",
            ClientError::HyperError(_) => "Error with http communication",
            ClientError::UnexpectedFrame(_, _) => "Received unexpected frame",
        }
    }

    /// The close signal with which a client gives the session up.
    pub fn to_close(&self) -> (close: Close)
        ensures
            close.code == self.code(),
            close.reason@ == self.text().spec_bytes(),
    {
        Close { code: self.to_code(), reason: copy_bytes(self.reason().as_bytes()) }
    }
}

impl ServerError {
    /// The close code that stands for this error.
    pub open spec fn code(&self) -> u16 {
        match self {
            ServerError::ClosedEarly => CLOSE_POLICY,
            ServerError::ProtocolError(_) => CLOSE_POLICY,
            ServerError::Websocket(_) => CLOSE_TRANSPORT,
            ServerError::IOError(_) => CLOSE_TRANSPORT,
            ServerError::HyperError(_) => CLOSE_TRANSPORT,
            ServerError::UnexpectedFrame(_, _) => CLOSE_POLICY,
            ServerError::Serialization(_) => CLOSE_POLICY,
            ServerError::Database(_) => CLOSE_POLICY,
            ServerError::UserAlreadyExists => CLOSE_POLICY,
            ServerError::UserDoesNotExist => CLOSE_POLICY,
        }
    }

    /// The text that describes this error to the peer.
    pub open spec fn text(&self) -> &'static str {
        match self {
            ServerError::ClosedEarly => "Communication terminated early",
            ServerError::UserAlreadyExists => "User already exists",
            ServerError::UserDoesNotExist => "User does not exist",
            ServerError::ProtocolError(_) => "Protocol error",
            ServerError::Websocket(_) => "Websocket connection error",
            ServerError::IOError(_) => "Error with io",
            ServerError::HyperError(_) => "Error with http connection",
            ServerError::UnexpectedFrame(_, _) => "Received unexpected frame",
            ServerError::Serialization(_) => "Error deserializing data",
            ServerError::Database(_) => "Error interacting with database",
        }
    }

    /// The close code that stands for this error.
    pub fn to_code(&self) -> (code: u16)
        ensures
            code == self.code(),
            code == CLOSE_TRANSPORT || code == CLOSE_POLICY,
    {
        match self {
            ServerError::ClosedEarly => CLOSE_POLICY,
            ServerError::ProtocolError(_) => CLOSE_POLICY,
            ServerError::Websocket(_) => CLOSE_TRANSPORT,
            ServerError::IOError(_) => CLOSE_TRANSPORT,
            ServerError::HyperError(_) => CLOSE_TRANSPORT,
            ServerError::UnexpectedFrame(_, _) => CLOSE_POLICY,
            ServerError::Serialization(_) => CLOSE_POLICY,
            ServerError::Database(_) => CLOSE_POLICY,
            ServerError::UserAlreadyExists => CLOSE_POLICY,
            ServerError::UserDoesNotExist => CLOSE_POLICY,
        }
    }

    /// The text that describes this error to the peer.
    pub fn reason(&self) -> (text: &'static str)
        ensures
            text@ == self.text()@,
    {
        match self {
            ServerError::ClosedEarly => "Communication terminated early",
            ServerError::UserAlreadyExists => "User already exists",
            ServerError::UserDoesNotExist => "User does not exist",
            ServerError::ProtocolError(_) => "Protocol error",
            ServerError::Websocket(_) => "Websocket connection error",
            ServerError::IOError(_) => "Error with io",
            ServerError::HyperError(_) => "Error with http connection",
            ServerError::UnexpectedFrame(_, _) => "Received unexpected frame",
            ServerError::Serialization(_) => "Error deserializing data",
            ServerError::Database(_) => "Error interacting with database",
        }
    }

    /// The close signal with which a server gives the session up.
    pub fn to_close(&self) -> (close: Close)
        ensures
            close.code == self.code(),
            close.reason@ == self.text().spec_bytes(),
    {
        Close { code: self.to_code(), reason: copy_bytes(self.reason().as_bytes()) }
    }
}

/// The close of a client's error never reads as a reported success,
/// whatever header stands before its text: the last byte is not `1`.
pub proof fn lemma_client_error_reports_no_success(error: ClientError, header: Seq<u8>)
    ensures
        !close_outcome(header + error.text().spec_bytes()),
{
    broadcast use vstd::string::is_ascii_spec_bytes;

    reveal_strlit("Communication terminated early");
    reveal_strlit("Protocol error");
    reveal_strlit("Failed to authenticate");
    reveal_strlit("Websocket connection error");
    reveal_strlit("Error with io");
    reveal_strlit("Error with http communication");
    reveal_strlit("Received unexpected frame");
    let text = error.text();
    assert(vstd::string::is_ascii(text));
}

/// The close of a server's error never reads as a reported success,
/// whatever header stands before its text: the last byte is not `1`. So a
/// client that reads the outcome of a registration or a deletion from a
/// close frame that carries an error reads a failure.
pub proof fn lemma_server_error_reports_no_success(error: ServerError, header: Seq<u8>)
    ensures
        !close_outcome(header + error.text().spec_bytes()),
{
    broadcast use vstd::string::is_ascii_spec_bytes;

    reveal_strlit("Communication terminated early");
    reveal_strlit("User already exists");
    reveal_strlit("User does not exist");
    reveal_strlit("Protocol error");
    reveal_strlit("Websocket connection error");
    reveal_strlit("Error with io");
    reveal_strlit("Error with http connection");
    reveal_strlit("Received unexpected frame");
    reveal_strlit("Error deserializing data");
    reveal_strlit("Error interacting with database");
    let text = error.text();
    assert(vstd::string::is_ascii(text));
}

} // verus!
