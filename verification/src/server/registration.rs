//! The server's side of a registration: waiting, initial, uploaded.
//!
//! Each phase is a value of its own type. A step takes the phase by value
//! and gives the next one, so no phase can be stepped twice or out of order.
//! The last phase holds the username and the credential record; storing
//! them is the session's part.

use crate::bytes::copy_bytes;
use crate::engine::{
    engine_registration_record, engine_registration_response, registration_record,
    registration_response,
};
use crate::envelope::{envelope_fields, WithUsername};
use crate::error::ServerError;
use crate::server::ServerSetup;
use vstd::prelude::*;

verus! {

/// A registration that waits for the client's first message.
pub struct RegWaiting {
    server_setup: ServerSetup,
}

/// A registration that has answered the client's request and waits for the
/// upload.
#[derive(Debug)]
pub struct RegInitial {
    username: Vec<u8>,
    response: Vec<u8>,
}

/// A registration that holds the credential record, not yet stored.
#[derive(Debug)]
pub struct RegUpload {
    username: Vec<u8>,
    password_serialized: Vec<u8>,
}

impl RegWaiting {
    /// The server's key material.
    pub closed spec fn spec_setup(&self) -> Seq<u8> {
        self.server_setup@
    }

    /// A registration under `server_setup`.
    pub fn new(server_setup: ServerSetup) -> (phase: Self)
        ensures
            phase.spec_setup() == server_setup@,
    {
        RegWaiting { server_setup }
    }

    /// Answers the client's first message. It must be an envelope, else the
    /// step fails with `Serialization`; its message must be a registration
    /// request that the engine answers, else the step fails with
    /// `ProtocolError`. The next phase holds the envelope's username and
    /// the engine's response.
    pub fn step(self, initial_data: Vec<u8>) -> (r: Result<RegInitial, ServerError>)
        ensures
            match envelope_fields(initial_data@) {
                None => r matches Err(ServerError::Serialization(_)),
                Some((username, request)) => match engine_registration_response(
                    self.spec_setup(),
                    request,
                    username,
                ) {
                    None => r matches Err(ServerError::ProtocolError(_)),
                    Some(response) => r matches Ok(next) && next.spec_username() == username
                        && next.spec_response() == response,
                },
            },
    {
        let envelope = match WithUsername::decode(initial_data.as_slice()) {
            Ok(envelope) => envelope,
            Err(error) => {
                return Err(ServerError::Serialization(error));
            },
        };
        match registration_response(
            self.server_setup.as_bytes(),
            envelope.data,
            envelope.username,
        ) {
            Ok(response) => Ok(RegInitial::new(copy_bytes(envelope.username), response)),
            Err(error) => Err(ServerError::ProtocolError(error)),
        }
    }
}

impl RegInitial {
    /// The username that the client registers.
    pub closed spec fn spec_username(&self) -> Seq<u8> {
        self.username@
    }

    /// The registration response.
    pub closed spec fn spec_response(&self) -> Seq<u8> {
        self.response@
    }

    /// The phase that holds a username and the response to its request.
    pub fn new(username: Vec<u8>, server_registration_start_result: Vec<u8>) -> (phase: Self)
        ensures
            phase.spec_username() == username@,
            phase.spec_response() == server_registration_start_result@,
    {
        RegInitial { username, response: server_registration_start_result }
    }

    /// The server's message of the flow: the registration response.
    pub fn to_data(&self) -> (out: Vec<u8>)
        ensures
            out@ == self.spec_response(),
    {
        copy_bytes(self.response.as_slice())
    }

    /// Takes the client's upload. It must be a registration upload, else
    /// the step fails with `ProtocolError`. The next phase holds the
    /// username and the credential record that the engine makes of the
    /// upload.
    pub fn step(self, message_bytes: Vec<u8>) -> (r: Result<RegUpload, ServerError>)
        ensures
            match engine_registration_record(message_bytes@) {
                None => r matches Err(ServerError::ProtocolError(_)),
                Some(record) => r matches Ok(next) && next.spec_username() == self.spec_username()
                    && next.spec_record() == record,
            },
    {
        match registration_record(message_bytes.as_slice()) {
            Ok(record) => Ok(RegUpload::new(self.username, record)),
            Err(error) => Err(ServerError::ProtocolError(error)),
        }
    }
}

impl RegUpload {
    /// The username to store the record under.
    pub closed spec fn spec_username(&self) -> Seq<u8> {
        self.username@
    }

    /// The credential record.
    pub closed spec fn spec_record(&self) -> Seq<u8> {
        self.password_serialized@
    }

    /// The phase that holds a username and its credential record.
    pub fn new(username: Vec<u8>, password_serialized: Vec<u8>) -> (phase: Self)
        ensures
            phase.spec_username() == username@,
            phase.spec_record() == password_serialized@,
    {
        RegUpload { username, password_serialized }
    }

    /// The username and the credential record, in this order.
    pub fn to_data(&self) -> (out: (&[u8], &[u8]))
        ensures
            out.0@ == self.spec_username(),
            out.1@ == self.spec_record(),
    {
        (self.username.as_slice(), self.password_serialized.as_slice())
    }
}

} // verus!
