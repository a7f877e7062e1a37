//! The client's side of a login, which is also its side of a deletion:
//! start, finish, key confirmation, confirmed.
//!
//! Each phase is a value of its own type. A step takes the phase by value
//! and gives the next one, so no phase can be stepped twice or out of order.
//!
//! A login never aborts on the server's response. Where the engine rejects
//! the response, because the password is wrong or the response is damaged,
//! the client goes on with a decoy finalization and without keys: the
//! comparison of session keys then fails whatever the server sends.

use crate::bytes::{copy_bytes, same_bytes};
use crate::engine::{
    engine_login_finish, login_finish, login_start, ClientLoginFinish, ClientLoginStart,
};
use crate::envelope::{envelope_bytes, envelope_fields, WithUsername};
use crate::error::ClientError;
use opaque_ke::errors::ProtocolError;
use vstd::prelude::*;
use vstd::utf8::encode_utf8;

verus! {

/// The length of a credential finalization, and so of the decoy.
pub const FINALIZATION_LENGTH: usize = 64;

/// The finalization that a client sends when it has none: zero bytes, as
/// many as a finalization has.
pub open spec fn decoy_finalization() -> Seq<u8> {
    Seq::new(FINALIZATION_LENGTH as nat, |i: int| 0u8)
}

/// The finalization that goes to the server for a login outcome.
pub open spec fn finalization_of(outcome: Option<(Seq<u8>, Seq<u8>, Seq<u8>)>) -> Seq<u8> {
    match outcome {
        Some((finalization, _, _)) => finalization,
        None => decoy_finalization(),
    }
}

/// Whether a login outcome and the server's session key match: the client
/// derived a session key, and it is the server's, byte for byte.
pub open spec fn keys_match(
    outcome: Option<(Seq<u8>, Seq<u8>, Seq<u8>)>,
    server_key: Seq<u8>,
) -> bool {
    match outcome {
        Some((_, session_key, _)) => session_key == server_key,
        None => false,
    }
}

/// The session key that a login outcome leaves to the caller: the derived
/// one, or none.
pub open spec fn session_key_of(outcome: Option<(Seq<u8>, Seq<u8>, Seq<u8>)>) -> Seq<u8> {
    match outcome {
        Some((_, session_key, _)) => session_key,
        None => Seq::empty(),
    }
}

/// The export key that a login outcome leaves to the caller: the recovered
/// one, or none.
pub open spec fn export_key_of(outcome: Option<(Seq<u8>, Seq<u8>, Seq<u8>)>) -> Seq<u8> {
    match outcome {
        Some((_, _, export_key)) => export_key,
        None => Seq::empty(),
    }
}

/// The outcome of a login as the engine's result tells it.
pub open spec fn outcome_of(finished: Result<ClientLoginFinish, ProtocolError>) -> Option<
    (Seq<u8>, Seq<u8>, Seq<u8>),
> {
    match finished {
        Ok(keys) => Some((keys.message@, keys.session_key@, keys.export_key@)),
        Err(_) => None,
    }
}

/// Where the engine rejects the server's response, the client sends the
/// decoy and the keys never match, whatever the server sends as its
/// session key.
pub proof fn lemma_rejected_response_never_matches(
    state: Seq<u8>,
    password: Seq<u8>,
    response: Seq<u8>,
    server_key: Seq<u8>,
)
    requires
        engine_login_finish(state, password, response) is None,
    ensures
        finalization_of(engine_login_finish(state, password, response)) == decoy_finalization(),
        !keys_match(engine_login_finish(state, password, response), server_key),
{
}

/// Where the keys match, the session key that the login leaves to the
/// caller is the one that the server sent.
pub proof fn lemma_matching_keys_are_equal(
    outcome: Option<(Seq<u8>, Seq<u8>, Seq<u8>)>,
    server_key: Seq<u8>,
)
    requires
        keys_match(outcome, server_key),
    ensures
        outcome is Some,
        session_key_of(outcome) == server_key,
{
}

/// A login that has produced its credential request and waits for the
/// server's response.
pub struct AuthenticateInitialize {
    username: String,
    password: String,
    start: ClientLoginStart,
}

/// A login that has answered the server's response and waits for the
/// server's session key.
pub struct AuthenticateWaiting {
    outcome: Option<ClientLoginFinish>,
}

/// A login that holds the server's session key beside its own.
pub struct AuthenticateFinish {
    server_key: Vec<u8>,
    outcome: Option<ClientLoginFinish>,
}

/// What a login leaves to the caller: the session key and the export key.
pub struct AuthenticateConfirm {
    session_key: Vec<u8>,
    export_key: Vec<u8>,
}

/// The outcome that a phase holds, as plain values.
pub open spec fn held(outcome: Option<ClientLoginFinish>) -> Option<(Seq<u8>, Seq<u8>, Seq<u8>)> {
    match outcome {
        Some(keys) => Some((keys.message@, keys.session_key@, keys.export_key@)),
        None => None,
    }
}

/// The decoy finalization.
fn make_decoy() -> (out: Vec<u8>)
    ensures
        out@ == decoy_finalization(),
{
    let mut out: Vec<u8> = Vec::new();
    let mut i: usize = 0;
    while i < FINALIZATION_LENGTH
        invariant
            i <= FINALIZATION_LENGTH,
            out@ == Seq::new(i as nat, |j: int| 0u8),
        decreases FINALIZATION_LENGTH - i,
    {
        out.push(0u8);
        i = i + 1;
    }
    out
}

impl AuthenticateInitialize {
    /// The username, as the bytes that go on the wire.
    pub closed spec fn spec_username(&self) -> Seq<u8> {
        encode_utf8(self.username@)
    }

    /// The password, as the bytes that the engine is given.
    pub closed spec fn spec_password(&self) -> Seq<u8> {
        encode_utf8(self.password@)
    }

    /// The credential request.
    pub closed spec fn spec_request(&self) -> Seq<u8> {
        self.start.message@
    }

    /// The engine's state between the two steps.
    pub closed spec fn spec_state(&self) -> Seq<u8> {
        self.start.state@
    }

    /// Starts a login. The engine blinds the password and draws a key share
    /// with fresh randomness; it alone decides whether it accepts the
    /// password.
    pub fn new(username: String, password: String) -> (r: Result<Self, ClientError>)
        ensures
            r matches Ok(phase) ==> phase.spec_username() == encode_utf8(username@)
                && phase.spec_password() == encode_utf8(password@),
            r matches Err(error) ==> error is ProtocolError,
    {
        let started = login_start(password.as_str().as_bytes());
        Self::started(username, password, started)
    }

    /// The first phase, given what the engine made of the password: the
    /// phase holds the engine's request and state, or the engine's error is
    /// handed on.
    pub fn started(
        username: String,
        password: String,
        started: Result<ClientLoginStart, ProtocolError>,
    ) -> (r: Result<Self, ClientError>)
        ensures
            match started {
                Ok(start) => r matches Ok(phase) && phase.spec_username() == encode_utf8(
                    username@,
                ) && phase.spec_password() == encode_utf8(password@) && phase.spec_request()
                    == start.message@ && phase.spec_state() == start.state@,
                Err(error) => r matches Err(ClientError::ProtocolError(handed)) && handed == error,
            },
    {
        match started {
            Ok(start) => Ok(AuthenticateInitialize { username, password, start }),
            Err(error) => Err(ClientError::ProtocolError(error)),
        }
    }

    /// The first message of the flow: the username and the credential
    /// request, in an envelope.
    pub fn to_data(&self) -> (out: Vec<u8>)
        ensures
            out@ == envelope_bytes(self.spec_username(), self.spec_request()),
            envelope_fields(out@) == Some((self.spec_username(), self.spec_request())),
    {
        let envelope = WithUsername::new(
            self.username.as_str().as_bytes(),
            self.start.message.as_slice(),
        );
        envelope.encode()
    }

    /// Answers the server's response. This step always succeeds: the next
    /// phase holds what the engine made of the response, which is nothing
    /// where the engine rejected it.
    pub fn step(self, credential_response_bytes: Vec<u8>) -> (r: Result<
        AuthenticateWaiting,
        ClientError,
    >)
        ensures
            r matches Ok(next) && next.spec_outcome() == engine_login_finish(
                self.spec_state(),
                self.spec_password(),
                credential_response_bytes@,
            ),
    {
        let finished = login_finish(
            self.start.state.as_slice(),
            self.password.as_str().as_bytes(),
            credential_response_bytes.as_slice(),
        );
        Ok(AuthenticateWaiting::finished(finished))
    }
}

impl AuthenticateWaiting {
    /// What the engine made of the server's response: the finalization, the
    /// session key and the export key, or nothing.
    pub closed spec fn spec_outcome(&self) -> Option<(Seq<u8>, Seq<u8>, Seq<u8>)> {
        held(self.outcome)
    }

    /// The phase that holds a finished login.
    pub fn new(client_login_finish_result: ClientLoginFinish) -> (phase: Self)
        ensures
            phase.spec_outcome() == Some(
                (
                    client_login_finish_result.message@,
                    client_login_finish_result.session_key@,
                    client_login_finish_result.export_key@,
                ),
            ),
    {
        AuthenticateWaiting { outcome: Some(client_login_finish_result) }
    }

    /// The second phase, given what the engine made of the server's
    /// response. An error of the engine leaves the phase without keys.
    pub fn finished(finished: Result<ClientLoginFinish, ProtocolError>) -> (phase: Self)
        ensures
            phase.spec_outcome() == outcome_of(finished),
    {
        match finished {
            Ok(keys) => AuthenticateWaiting::new(keys),
            Err(_) => AuthenticateWaiting { outcome: None },
        }
    }

    /// Whether the engine accepted the server's response.
    pub fn accepted(&self) -> (accepted: bool)
        ensures
            accepted == self.spec_outcome() is Some,
    {
        self.outcome.is_some()
    }

    /// The second message of the flow: the credential finalization, or the
    /// decoy where the engine gave none.
    pub fn to_data(&self) -> (out: Vec<u8>)
        ensures
            out@ == finalization_of(self.spec_outcome()),
    {
        match &self.outcome {
            Some(keys) => copy_bytes(keys.message.as_slice()),
            None => make_decoy(),
        }
    }

    /// Takes the server's session key.
    pub fn step(self, server_key: Vec<u8>) -> (next: AuthenticateFinish)
        ensures
            next.spec_server_key() == server_key@,
            next.spec_outcome() == self.spec_outcome(),
    {
        AuthenticateFinish { server_key, outcome: self.outcome }
    }
}

impl AuthenticateFinish {
    /// The session key that the server sent.
    pub closed spec fn spec_server_key(&self) -> Seq<u8> {
        self.server_key@
    }

    /// What the engine made of the server's response.
    pub closed spec fn spec_outcome(&self) -> Option<(Seq<u8>, Seq<u8>, Seq<u8>)> {
        held(self.outcome)
    }

    /// The phase that holds the server's session key beside a finished
    /// login.
    pub fn new(server_key: Vec<u8>, client_login_finish_result: ClientLoginFinish) -> (phase: Self)
        ensures
            phase.spec_server_key() == server_key@,
            phase.spec_outcome() == Some(
                (
                    client_login_finish_result.message@,
                    client_login_finish_result.session_key@,
                    client_login_finish_result.export_key@,
                ),
            ),
    {
        AuthenticateFinish { server_key, outcome: Some(client_login_finish_result) }
    }

    /// Whether the login authenticated the user: the client derived a
    /// session key and the server sent the same bytes.
    pub fn to_data(&self) -> (matched: bool)
        ensures
            matched == keys_match(self.spec_outcome(), self.spec_server_key()),
    {
        match &self.outcome {
            Some(keys) => same_bytes(keys.session_key.as_slice(), self.server_key.as_slice()),
            None => false,
        }
    }

    /// Ends the login: the keys that the client derived, or two empty keys
    /// where it derived none.
    pub fn step(self) -> (done: AuthenticateConfirm)
        ensures
            done.spec_session_key() == session_key_of(self.spec_outcome()),
            done.spec_export_key() == export_key_of(self.spec_outcome()),
    {
        match self.outcome {
            Some(keys) => AuthenticateConfirm::new(keys.session_key, keys.export_key),
            None => AuthenticateConfirm::new(Vec::new(), Vec::new()),
        }
    }
}

impl AuthenticateConfirm {
    /// The session key.
    pub closed spec fn spec_session_key(&self) -> Seq<u8> {
        self.session_key@
    }

    /// The export key.
    pub closed spec fn spec_export_key(&self) -> Seq<u8> {
        self.export_key@
    }

    /// The keys of a login.
    pub fn new(session_key: Vec<u8>, export_key: Vec<u8>) -> (keys: Self)
        ensures
            keys.spec_session_key() == session_key@,
            keys.spec_export_key() == export_key@,
    {
        AuthenticateConfirm { session_key, export_key }
    }

    /// The session key.
    pub fn session_key(&self) -> (key: &[u8])
        ensures
            key@ == self.spec_session_key(),
    {
        self.session_key.as_slice()
    }

    /// The export key.
    pub fn export_key(&self) -> (key: &[u8])
        ensures
            key@ == self.spec_export_key(),
    {
        self.export_key.as_slice()
    }
}

} // verus!
