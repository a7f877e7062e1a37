//! The client's side of a registration: start, finish, confirmed.
//!
//! Each phase is a value of its own type. A step takes the phase by value
//! and gives the next one, so no phase can be stepped twice or out of order.

use crate::bytes::copy_bytes;
use crate::engine::{
    engine_parsed_registration_response, parsed_registration_response, registration_finish,
    registration_start, ClientRegistrationFinish, ClientRegistrationStart,
};
use crate::envelope::{envelope_bytes, envelope_fields, WithUsername};
use crate::error::ClientError;
use opaque_ke::errors::ProtocolError;
use vstd::prelude::*;
use vstd::utf8::encode_utf8;

verus! {

/// A registration that has produced its request and waits for the server's
/// response.
pub struct RegistrationInitialize {
    username: String,
    password: String,
    start: ClientRegistrationStart,
}

/// A registration that has produced its upload and waits for the server to
/// close the channel.
pub struct RegistrationWaiting {
    finish: ClientRegistrationFinish,
}

/// A registration that is through on the client's side.
#[derive(Debug, Clone, Copy, PartialEq, Eq, Structural)]
pub struct RegistrationConfirm;

impl RegistrationInitialize {
    /// The username, as the bytes that go on the wire.
    pub closed spec fn spec_username(&self) -> Seq<u8> {
        encode_utf8(self.username@)
    }

    /// The password, as the bytes that the engine is given.
    pub closed spec fn spec_password(&self) -> Seq<u8> {
        encode_utf8(self.password@)
    }

    /// The registration request.
    pub closed spec fn spec_request(&self) -> Seq<u8> {
        self.start.message@
    }

    /// The engine's state between the two steps.
    pub closed spec fn spec_state(&self) -> Seq<u8> {
        self.start.state@
    }

    /// Starts a registration. The engine blinds the password with fresh
    /// randomness; it alone decides whether it accepts the password.
    pub fn new(username: String, password: String) -> (r: Result<Self, ClientError>)
        ensures
            r matches Ok(phase) ==> phase.spec_username() == encode_utf8(username@)
                && phase.spec_password() == encode_utf8(password@),
            r matches Err(error) ==> error is ProtocolError,
    {
        let started = registration_start(password.as_str().as_bytes());
        Self::started(username, password, started)
    }

    /// The first phase, given what the engine made of the password: the
    /// phase holds the engine's request and state, or the engine's error is
    /// handed on.
    pub fn started(
        username: String,
        password: String,
        started: Result<ClientRegistrationStart, ProtocolError>,
    ) -> (r: Result<Self, ClientError>)
        ensures
            match started {
                Ok(start) => r matches Ok(phase) && phase.spec_username() == encode_utf8(
                    username@,
                ) && phase.spec_password() == encode_utf8(password@) && phase.spec_request()
                    == start.message@ && phase.spec_state() == start.state@,
                Err(error) => r matches Err(ClientError::ProtocolError(handed)) && handed == error,
            },
    {
        match started {
            Ok(start) => Ok(RegistrationInitialize { username, password, start }),
            Err(error) => Err(ClientError::ProtocolError(error)),
        }
    }

    /// The first message of the flow: the username and the registration
    /// request, in an envelope.
    pub fn to_data(&self) -> (out: Vec<u8>)
        ensures
            out@ == envelope_bytes(self.spec_username(), self.spec_request()),
            envelope_fields(out@) == Some((self.spec_username(), self.spec_request())),
    {
        let envelope = WithUsername::new(
            self.username.as_str().as_bytes(),
            self.start.message.as_slice(),
        );
        envelope.encode()
    }

    /// Finishes the registration on the server's response. The message
    /// must be a registration response, else the step fails with
    /// `ProtocolError`. The engine then seals the envelope with fresh
    /// randomness; where it fails, because the response does not fit this
    /// registration, the step fails with `ProtocolError` too.
    pub fn step(self, registration_response_bytes: Vec<u8>) -> (r: Result<
        RegistrationWaiting,
        ClientError,
    >)
        ensures
            match engine_parsed_registration_response(registration_response_bytes@) {
                None => r matches Err(ClientError::ProtocolError(_)),
                Some(_) => r matches Err(error) ==> error is ProtocolError,
            },
    {
        let response = match parsed_registration_response(
            registration_response_bytes.as_slice(),
        ) {
            Ok(response) => response,
            Err(error) => {
                return Err(ClientError::ProtocolError(error));
            },
        };
        let finished = registration_finish(
            self.start.state.as_slice(),
            self.password.as_str().as_bytes(),
            response.as_slice(),
        );
        RegistrationWaiting::finished(finished)
    }
}

impl RegistrationWaiting {
    /// The registration upload.
    pub closed spec fn spec_upload(&self) -> Seq<u8> {
        self.finish.message@
    }

    /// The export key.
    pub closed spec fn spec_export_key(&self) -> Seq<u8> {
        self.finish.export_key@
    }

    /// The phase that holds a finished registration.
    pub fn new(client_finish_registration_result: ClientRegistrationFinish) -> (phase: Self)
        ensures
            phase.spec_upload() == client_finish_registration_result.message@,
            phase.spec_export_key() == client_finish_registration_result.export_key@,
    {
        RegistrationWaiting { finish: client_finish_registration_result }
    }

    /// The second phase, given what the engine made of the server's
    /// response: the phase holds the engine's upload, or the engine's error
    /// is handed on.
    pub fn finished(finished: Result<ClientRegistrationFinish, ProtocolError>) -> (r: Result<
        Self,
        ClientError,
    >)
        ensures
            match finished {
                Ok(finish) => r matches Ok(phase) && phase.spec_upload() == finish.message@
                    && phase.spec_export_key() == finish.export_key@,
                Err(error) => r matches Err(ClientError::ProtocolError(handed)) && handed == error,
            },
    {
        match finished {
            Ok(finish) => Ok(RegistrationWaiting::new(finish)),
            Err(error) => Err(ClientError::ProtocolError(error)),
        }
    }

    /// The second message of the flow: the registration upload.
    pub fn to_data(&self) -> (out: Vec<u8>)
        ensures
            out@ == self.spec_upload(),
    {
        copy_bytes(self.finish.message.as_slice())
    }

    /// The export key that this registration produced.
    pub fn export_key(&self) -> (key: &[u8])
        ensures
            key@ == self.spec_export_key(),
    {
        self.finish.export_key.as_slice()
    }

    /// Ends the client's part: nothing is left to send.
    pub fn step(self) -> (done: RegistrationConfirm) {
        RegistrationConfirm
    }
}

} // verus!
