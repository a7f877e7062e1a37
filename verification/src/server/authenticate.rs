//! The server's side of a login, which is also its side of a deletion:
//! waiting, initial, with record, final, confirmed.
//!
//! Each phase is a value of its own type. A step takes the phase by value
//! and gives the next one, so no phase can be stepped twice or out of order.
//! Looking the user's record up, and removing it after a deletion, is the
//! session's part.

use crate::bytes::copy_bytes;
use crate::engine::{
    credential_request, engine_credential_request, engine_session_key, login_response,
    login_session_key, ServerLoginStart,
};
use crate::envelope::{confirms, decode_bool_result, envelope_fields, WithUsername};
use crate::error::ServerError;
use crate::server::ServerSetup;
use opaque_ke::errors::ProtocolError;
use vstd::prelude::*;

verus! {

/// A login that waits for the client's first message.
pub struct AuthWaiting {
    server_setup: ServerSetup,
}

/// A login that knows the username and the credential request, and waits
/// for the user's record.
pub struct AuthInitial {
    username: Vec<u8>,
    credential_request: Vec<u8>,
    server_setup: ServerSetup,
}

/// A login that has answered the credential request and waits for the
/// client's finalization.
pub struct AuthWithCreds {
    username: Vec<u8>,
    start: ServerLoginStart,
}

/// A login that has derived the session key and waits for the client's
/// confirmation.
pub struct AuthFinal {
    username: Vec<u8>,
    session_key: Vec<u8>,
}

/// The end of a login: who asked, and whether the client confirmed that
/// the keys match.
#[derive(Debug)]
pub struct AuthConfirm {
    authenticated: bool,
    username: Vec<u8>,
}

impl AuthWaiting {
    /// The server's key material.
    pub closed spec fn spec_setup(&self) -> Seq<u8> {
        self.server_setup@
    }

    /// A login under `server_setup`.
    pub fn new(server_setup: ServerSetup) -> (phase: Self)
        ensures
            phase.spec_setup() == server_setup@,
    {
        AuthWaiting { server_setup }
    }

    /// Takes the client's first message. It must be an envelope, else the
    /// step fails with `Serialization`; its message must be a credential
    /// request, else the step fails with `ProtocolError`. The next phase
    /// holds the envelope's username and the request in its canonical form.
    pub fn step(self, initial_data: Vec<u8>) -> (r: Result<AuthInitial, ServerError>)
        ensures
            match envelope_fields(initial_data@) {
                None => r matches Err(ServerError::Serialization(_)),
                Some((username, request)) => match engine_credential_request(request) {
                    None => r matches Err(ServerError::ProtocolError(_)),
                    Some(canonical) => r matches Ok(next) && next.spec_username() == username
                        && next.spec_request() == canonical && next.spec_setup()
                        == self.spec_setup(),
                },
            },
    {
        let envelope = match WithUsername::decode(initial_data.as_slice()) {
            Ok(envelope) => envelope,
            Err(error) => {
                return Err(ServerError::Serialization(error));
            },
        };
        match credential_request(envelope.data) {
            Ok(canonical) => Ok(
                AuthInitial::new(copy_bytes(envelope.username), canonical, self.server_setup),
            ),
            Err(error) => Err(ServerError::ProtocolError(error)),
        }
    }
}

impl AuthInitial {
    /// The username that the client logs in as.
    pub closed spec fn spec_username(&self) -> Seq<u8> {
        self.username@
    }

    /// The credential request.
    pub closed spec fn spec_request(&self) -> Seq<u8> {
        self.credential_request@
    }

    /// The server's key material.
    pub closed spec fn spec_setup(&self) -> Seq<u8> {
        self.server_setup@
    }

    /// The phase that holds a username, its credential request and the
    /// server's key material.
    pub fn new(username: Vec<u8>, credential_request: Vec<u8>, server_setup: ServerSetup) -> (phase:
        Self)
        ensures
            phase.spec_username() == username@,
            phase.spec_request() == credential_request@,
            phase.spec_setup() == server_setup@,
    {
        AuthInitial { username, credential_request, server_setup }
    }

    /// The username to look the record up under.
    pub fn username(&self) -> (username: &[u8])
        ensures
            username@ == self.spec_username(),
    {
        self.username.as_slice()
    }

    /// Answers the credential request with the user's record. The engine
    /// draws a key share and a nonce with fresh randomness; it fails where
    /// the record or the key material does not parse.
    pub fn step(self, password_file_bytes: Vec<u8>) -> (r: Result<AuthWithCreds, ServerError>)
        ensures
            r matches Ok(next) ==> next.spec_username() == self.spec_username(),
            r matches Err(error) ==> error is ProtocolError,
    {
        let started = login_response(
            self.server_setup.as_bytes(),
            password_file_bytes.as_slice(),
            self.credential_request.as_slice(),
            self.username.as_slice(),
        );
        AuthWithCreds::started(self.username, started)
    }
}

impl AuthWithCreds {
    /// The username that the client logs in as.
    pub closed spec fn spec_username(&self) -> Seq<u8> {
        self.username@
    }

    /// The credential response.
    pub closed spec fn spec_response(&self) -> Seq<u8> {
        self.start.message@
    }

    /// The engine's state between the two steps.
    pub closed spec fn spec_state(&self) -> Seq<u8> {
        self.start.state@
    }

    /// The phase that holds a username and a started login.
    pub fn new(username: Vec<u8>, server_login_start_result: ServerLoginStart) -> (phase: Self)
        ensures
            phase.spec_username() == username@,
            phase.spec_response() == server_login_start_result.message@,
            phase.spec_state() == server_login_start_result.state@,
    {
        AuthWithCreds { username, start: server_login_start_result }
    }

    /// The third phase, given what the engine made of the record and the
    /// request: the phase holds the engine's response and state, or the
    /// engine's error is handed on.
    pub fn started(username: Vec<u8>, started: Result<ServerLoginStart, ProtocolError>) -> (r:
        Result<Self, ServerError>)
        ensures
            match started {
                Ok(start) => r matches Ok(phase) && phase.spec_username() == username@
                    && phase.spec_response() == start.message@ && phase.spec_state()
                    == start.state@,
                Err(error) => r matches Err(ServerError::ProtocolError(handed)) && handed == error,
            },
    {
        match started {
            Ok(start) => Ok(AuthWithCreds::new(username, start)),
            Err(error) => Err(ServerError::ProtocolError(error)),
        }
    }

    /// The server's first message of the flow: the credential response.
    pub fn to_data(&self) -> (out: Vec<u8>)
        ensures
            out@ == self.spec_response(),
    {
        copy_bytes(self.start.message.as_slice())
    }

    /// Takes the client's finalization. It must be one that the engine
    /// accepts for this login, else the step fails with `ProtocolError`.
    /// The next phase holds the session key that the engine derives.
    pub fn step(self, credential_finalization_bytes: Vec<u8>) -> (r: Result<
        AuthFinal,
        ServerError,
    >)
        ensures
            match engine_session_key(self.spec_state(), credential_finalization_bytes@) {
                None => r matches Err(ServerError::ProtocolError(_)),
                Some(key) => r matches Ok(next) && next.spec_username() == self.spec_username()
                    && next.spec_session_key() == key,
            },
    {
        match login_session_key(
            self.start.state.as_slice(),
            credential_finalization_bytes.as_slice(),
        ) {
            Ok(key) => Ok(AuthFinal::new(self.username, key)),
            Err(error) => Err(ServerError::ProtocolError(error)),
        }
    }
}

impl AuthFinal {
    /// The username that the client logs in as.
    pub closed spec fn spec_username(&self) -> Seq<u8> {
        self.username@
    }

    /// The session key as the server derived it.
    pub closed spec fn spec_session_key(&self) -> Seq<u8> {
        self.session_key@
    }

    /// The phase that holds a username and the server's session key.
    pub fn new(username: Vec<u8>, server_login_finish_result: Vec<u8>) -> (phase: Self)
        ensures
            phase.spec_username() == username@,
            phase.spec_session_key() == server_login_finish_result@,
    {
        AuthFinal { username, session_key: server_login_finish_result }
    }

    /// The server's second message of the flow: its session key.
    pub fn to_data(&self) -> (out: Vec<u8>)
        ensures
            out@ == self.spec_session_key(),
    {
        copy_bytes(self.session_key.as_slice())
    }

    /// Takes the client's confirmation: the login is authenticated exactly
    /// where the message is the single byte `1`.
    pub fn step(self, state: Vec<u8>) -> (done: AuthConfirm)
        ensures
            done.spec_authenticated() == confirms(state@),
            done.spec_username() == self.spec_username(),
    {
        AuthConfirm::new(decode_bool_result(state.as_slice()), self.username)
    }
}

impl AuthConfirm {
    /// Whether the client confirmed that the keys match.
    pub closed spec fn spec_authenticated(&self) -> bool {
        self.authenticated
    }

    /// The username that the client logged in as.
    pub closed spec fn spec_username(&self) -> Seq<u8> {
        self.username@
    }

    /// The end of a login for `username`.
    pub fn new(authenticated: bool, username: Vec<u8>) -> (done: Self)
        ensures
            done.spec_authenticated() == authenticated,
            done.spec_username() == username@,
    {
        AuthConfirm { authenticated, username }
    }

    /// Whether the client confirmed that the keys match.
    pub fn authenticated(&self) -> (authenticated: bool)
        ensures
            authenticated == self.spec_authenticated(),
    {
        self.authenticated
    }

    /// The username that the client logged in as.
    pub fn username(&self) -> (username: &[u8])
        ensures
            username@ == self.spec_username(),
    {
        self.username.as_slice()
    }
}

} // verus!
