//! The server: its key material, its state machines and the decisions of
//! its sessions.
//!
//! A session alternates between the channel, the store and the decisions
//! below. The caller owns the channel and the store: it sends what a
//! decision hands out, reads the next frame or asks the store, and hands
//! the answer to the next decision. Every decision takes its phase by
//! value. Where one fails, the caller sends the error's close signal, as far
//! as the channel still lets it, and the session is over.

pub mod authenticate;
pub mod registration;
pub mod store;

use crate::bytes::copy_bytes;
use crate::engine::{
    engine_credential_request, engine_registration_record, engine_registration_response,
    engine_session_key, engine_setup_valid, setup_check, setup_generate,
};
use crate::envelope::{confirms, envelope_fields, outcome_byte};
use crate::error::ServerError;
use crate::frame::{Close, Frame, OpCode, CLOSE_NORMAL};
use crate::server::authenticate::{AuthConfirm, AuthFinal, AuthInitial, AuthWaiting, AuthWithCreds};
use crate::server::registration::{RegInitial, RegUpload, RegWaiting};
use vstd::prelude::*;
use vstd::string::StringSliceAdditionalSpecFns;

verus! {

/// The server's long-lived key material, in its serialized form.
pub struct ServerSetup {
    bytes: Vec<u8>,
}

impl View for ServerSetup {
    type V = Seq<u8>;

    closed spec fn view(&self) -> Seq<u8> {
        self.bytes@
    }
}

impl ServerSetup {
    /// Fresh key material, from the system's random numbers. The keys are
    /// random; their serialized form is one that the engine accepts.
    pub fn generate() -> (setup: Self)
        ensures
            engine_setup_valid(setup@),
    {
        ServerSetup { bytes: setup_generate() }
    }

    /// The key material that `bytes` serializes, where the engine accepts
    /// them; its error otherwise.
    pub fn from_bytes(bytes: Vec<u8>) -> (r: Result<Self, ServerError>)
        ensures
            engine_setup_valid(bytes@) ==> (r matches Ok(setup) && setup@ == bytes@),
            !engine_setup_valid(bytes@) ==> r matches Err(ServerError::ProtocolError(_)),
    {
        match setup_check(bytes.as_slice()) {
            Ok(()) => Ok(ServerSetup { bytes }),
            Err(error) => Err(ServerError::ProtocolError(error)),
        }
    }

    /// The serialized form.
    pub fn as_bytes(&self) -> (bytes: &[u8])
        ensures
            bytes@ == self@,
    {
        self.bytes.as_slice()
    }

    /// A copy of this key material.
    pub fn duplicate(&self) -> (copy: Self)
        ensures
            copy@ == self@,
    {
        ServerSetup { bytes: copy_bytes(self.bytes.as_slice()) }
    }
}

/// The server's part that all its sessions share: the key material.
pub struct Server {
    server_setup: ServerSetup,
}

/// What a deletion does once the client has confirmed.
#[derive(Debug)]
pub enum Removal {
    /// The client confirmed the login: remove the record of this user, then
    /// report with [`Server::delete_removed`].
    Remove(AuthConfirm),
    /// The client did not confirm the login: leave the store alone and
    /// send this close signal, which reports that nothing was removed.
    Keep(Close),
}

/// What a server makes of a frame where it expects a message: the payload
/// of a binary frame, `ClosedEarly` for a close frame, `UnexpectedFrame`
/// for any other.
pub open spec fn expected_binary(frame: Frame) -> Result<Vec<u8>, ServerError> {
    match frame.opcode {
        OpCode::Binary => Ok(frame.payload),
        OpCode::Close => Err(ServerError::ClosedEarly),
        _ => Err(ServerError::UnexpectedFrame(frame.opcode, frame.payload)),
    }
}

/// Whether a registration may store its record, given the store's answer
/// to "is there a record for this username": not where there is one, and
/// not where the store failed.
pub open spec fn lookup_decision(present: Result<bool, String>) -> Result<(), ServerError> {
    match present {
        Err(text) => Err(ServerError::Database(text)),
        Ok(true) => Err(ServerError::UserAlreadyExists),
        Ok(false) => Ok(()),
    }
}

/// How a registration ends, given the store's answer to the insertion.
pub open spec fn stored_decision(inserted: Result<(), String>) -> Result<bool, ServerError> {
    match inserted {
        Err(text) => Err(ServerError::Database(text)),
        Ok(()) => Ok(true),
    }
}

/// The record that a login goes on with, given the store's answer to the
/// lookup: none where the user is unknown, and none where the store
/// failed.
pub open spec fn record_decision<T>(found: Result<Option<T>, String>) -> Result<T, ServerError> {
    match found {
        Err(text) => Err(ServerError::Database(text)),
        Ok(None) => Err(ServerError::UserDoesNotExist),
        Ok(Some(record)) => Ok(record),
    }
}

/// How a deletion ends, given the store's answer to the removal: it
/// reports whether a record was there to remove.
pub open spec fn removed_decision(removed: Result<bool, String>) -> Result<bool, ServerError> {
    match removed {
        Err(text) => Err(ServerError::Database(text)),
        Ok(existed) => Ok(existed),
    }
}

impl Server {
    /// The key material.
    pub closed spec fn spec_setup(&self) -> Seq<u8> {
        self.server_setup@
    }

    /// A server with the given key material.
    pub fn new(server_setup: ServerSetup) -> (server: Self)
        ensures
            server.spec_setup() == server_setup@,
    {
        Server { server_setup }
    }

    /// A server from what was persisted. Where key material was stored, the
    /// server uses it, and fails with `ProtocolError` where the engine does
    /// not accept it. Where none was stored, the server makes fresh key
    /// material and hands its serialized form out to be persisted.
    pub fn initialize(stored: Option<Vec<u8>>) -> (r: Result<(Self, Option<Vec<u8>>), ServerError>)
        ensures
            match stored {
                Some(bytes) => if engine_setup_valid(bytes@) {
                    r matches Ok((server, persist)) && server.spec_setup() == bytes@ && persist
                        is None
                } else {
                    r matches Err(ServerError::ProtocolError(_))
                },
                None => r matches Ok((server, Some(bytes))) && server.spec_setup() == bytes@
                    && engine_setup_valid(bytes@),
            },
    {
        match stored {
            Some(bytes) => match ServerSetup::from_bytes(bytes) {
                Ok(setup) => Ok((Server::new(setup), None)),
                Err(error) => Err(error),
            },
            None => {
                let setup = ServerSetup::generate();
                let persist = copy_bytes(setup.as_bytes());
                Ok((Server::new(setup), Some(persist)))
            },
        }
    }

    /// Takes the payload of a frame that must be a message.
    pub fn expect_binary(frame: Frame) -> (r: Result<Vec<u8>, ServerError>)
        ensures
            r == expected_binary(frame),
    {
        match frame.opcode {
            OpCode::Binary => Ok(frame.payload),
            OpCode::Close => Err(ServerError::ClosedEarly),
            _ => Err(ServerError::from(frame)),
        }
    }

    /// Begins a registration: the phase that waits for the client's first
    /// message.
    pub fn registration(&self) -> (phase: RegWaiting)
        ensures
            phase.spec_setup() == self.spec_setup(),
    {
        RegWaiting::new(self.server_setup.duplicate())
    }

    /// The client has sent its first message of a registration. The frame
    /// must be a message that holds an envelope with a registration
    /// request. Gives the next phase and the response to send.
    pub fn registration_request(state: RegWaiting, frame: Frame) -> (r: Result<
        (RegInitial, Vec<u8>),
        ServerError,
    >)
        ensures
            match expected_binary(frame) {
                Err(error) => r == Err::<(RegInitial, Vec<u8>), ServerError>(error),
                Ok(payload) => match envelope_fields(payload@) {
                    None => r matches Err(ServerError::Serialization(_)),
                    Some((username, request)) => match engine_registration_response(
                        state.spec_setup(),
                        request,
                        username,
                    ) {
                        None => r matches Err(ServerError::ProtocolError(_)),
                        Some(response) => r matches Ok((phase, out)) && phase.spec_username()
                            == username && phase.spec_response() == response && out@ == response,
                    },
                },
            },
    {
        let payload = match Self::expect_binary(frame) {
            Ok(payload) => payload,
            Err(error) => {
                return Err(error);
            },
        };
        match state.step(payload) {
            Ok(phase) => {
                let out = phase.to_data();
                Ok((phase, out))
            },
            Err(error) => Err(error),
        }
    }

    /// The client has sent its upload. The frame must be a message that
    /// holds a registration upload. Gives the phase that holds the
    /// username and the record; the caller asks the store next whether it
    /// has a record for this username.
    pub fn registration_upload(state: RegInitial, frame: Frame) -> (r: Result<
        RegUpload,
        ServerError,
    >)
        ensures
            match expected_binary(frame) {
                Err(error) => r == Err::<RegUpload, ServerError>(error),
                Ok(payload) => match engine_registration_record(payload@) {
                    None => r matches Err(ServerError::ProtocolError(_)),
                    Some(record) => r matches Ok(phase) && phase.spec_username()
                        == state.spec_username() && phase.spec_record() == record,
                },
            },
    {
        let payload = match Self::expect_binary(frame) {
            Ok(payload) => payload,
            Err(error) => {
                return Err(error);
            },
        };
        state.step(payload)
    }

    /// The store has said whether it has a record for the username. Where
    /// it has none, the phase comes back and the caller inserts its record
    /// under its username, then reports with
    /// [`Server::registration_stored`]; where it has one, the registration
    /// fails with `UserAlreadyExists` and nothing is written.
    pub fn registration_lookup(state: RegUpload, present: Result<bool, String>) -> (r: Result<
        RegUpload,
        ServerError,
    >)
        ensures
            match lookup_decision(present) {
                Err(error) => r == Err::<RegUpload, ServerError>(error),
                Ok(()) => r == Ok::<RegUpload, ServerError>(state),
            },
    {
        match present {
            Err(text) => Err(ServerError::Database(text)),
            Ok(true) => Err(ServerError::UserAlreadyExists),
            Ok(false) => Ok(state),
        }
    }

    /// The store has answered the insertion. Where it succeeded, the
    /// registration ends with a normal close whose reason is the byte `1`.
    pub fn registration_stored(state: RegUpload, inserted: Result<(), String>) -> (r: Result<
        Close,
        ServerError,
    >)
        ensures
            match stored_decision(inserted) {
                Err(error) => r == Err::<Close, ServerError>(error),
                Ok(outcome) => r matches Ok(close) && close.code == CLOSE_NORMAL && close.reason@
                    == seq![outcome_byte(outcome)],
            },
    {
        match inserted {
            Err(text) => Err(ServerError::Database(text)),
            Ok(()) => Ok(Close::reporting(true)),
        }
    }

    /// Begins a login: the phase that waits for the client's first message.
    pub fn authenticate(&self) -> (phase: AuthWaiting)
        ensures
            phase.spec_setup() == self.spec_setup(),
    {
        AuthWaiting::new(self.server_setup.duplicate())
    }

    /// Begins a deletion. On the wire a deletion is a login; it differs in
    /// what follows the client's confirmation.
    pub fn delete(&self) -> (phase: AuthWaiting)
        ensures
            phase.spec_setup() == self.spec_setup(),
    {
        self.authenticate()
    }

    /// The client has sent its first message of a login. The frame must be
    /// a message that holds an envelope with a credential request. Gives
    /// the next phase; the caller asks the store next for the record of
    /// this phase's username.
    pub fn authenticate_request(state: AuthWaiting, frame: Frame) -> (r: Result<
        AuthInitial,
        ServerError,
    >)
        ensures
            match expected_binary(frame) {
                Err(error) => r == Err::<AuthInitial, ServerError>(error),
                Ok(payload) => match envelope_fields(payload@) {
                    None => r matches Err(ServerError::Serialization(_)),
                    Some((username, request)) => match engine_credential_request(request) {
                        None => r matches Err(ServerError::ProtocolError(_)),
                        Some(canonical) => r matches Ok(phase) && phase.spec_username() == username
                            && phase.spec_request() == canonical && phase.spec_setup()
                            == state.spec_setup(),
                    },
                },
            },
    {
        let payload = match Self::expect_binary(frame) {
            Ok(payload) => payload,
            Err(error) => {
                return Err(error);
            },
        };
        state.step(payload)
    }

    /// The store has answered the lookup. Where it has no record, the login
    /// fails with `UserDoesNotExist` and the engine is not asked; where it
    /// has one, the engine answers the credential request with it. Gives
    /// the next phase and the response to send.
    pub fn authenticate_record(state: AuthInitial, found: Result<Option<Vec<u8>>, String>) -> (r:
        Result<(AuthWithCreds, Vec<u8>), ServerError>)
        ensures
            match record_decision(found) {
                Err(error) => r == Err::<(AuthWithCreds, Vec<u8>), ServerError>(error),
                Ok(_) => match r {
                    Ok((phase, out)) => phase.spec_username() == state.spec_username() && out@
                        == phase.spec_response(),
                    Err(error) => error is ProtocolError,
                },
            },
    {
        let record = match found {
            Err(text) => {
                return Err(ServerError::Database(text));
            },
            Ok(None) => {
                return Err(ServerError::UserDoesNotExist);
            },
            Ok(Some(record)) => record,
        };
        match state.step(record) {
            Ok(phase) => {
                let out = phase.to_data();
                Ok((phase, out))
            },
            Err(error) => Err(error),
        }
    }

    /// The client has sent its finalization. The frame must be a message
    /// that the engine accepts as the finalization of this login. Gives
    /// the next phase and the session key to send.
    pub fn authenticate_finalization(state: AuthWithCreds, frame: Frame) -> (r: Result<
        (AuthFinal, Vec<u8>),
        ServerError,
    >)
        ensures
            match expected_binary(frame) {
                Err(error) => r == Err::<(AuthFinal, Vec<u8>), ServerError>(error),
                Ok(payload) => match engine_session_key(state.spec_state(), payload@) {
                    None => r matches Err(ServerError::ProtocolError(_)),
                    Some(key) => r matches Ok((phase, out)) && phase.spec_username()
                        == state.spec_username() && phase.spec_session_key() == key && out@ == key,
                },
            },
    {
        let payload = match Self::expect_binary(frame) {
            Ok(payload) => payload,
            Err(error) => {
                return Err(error);
            },
        };
        match state.step(payload) {
            Ok(phase) => {
                let out = phase.to_data();
                Ok((phase, out))
            },
            Err(error) => Err(error),
        }
    }

    /// The client has sent its confirmation of a login. The frame must be
    /// a message; the login is authenticated exactly where it is the
    /// single byte `1`. Gives the end of the login and the close to send:
    /// a normal one with the reason `done`.
    pub fn authenticate_confirmation(state: AuthFinal, frame: Frame) -> (r: Result<
        (AuthConfirm, Close),
        ServerError,
    >)
        ensures
            match expected_binary(frame) {
                Err(error) => r == Err::<(AuthConfirm, Close), ServerError>(error),
                Ok(payload) => r matches Ok((done, close)) && done.spec_authenticated() == confirms(
                    payload@,
                ) && done.spec_username() == state.spec_username() && close.code == CLOSE_NORMAL
                    && close.reason@ == "done".spec_bytes(),
            },
    {
        let payload = match Self::expect_binary(frame) {
            Ok(payload) => payload,
            Err(error) => {
                return Err(error);
            },
        };
        Ok((state.step(payload), Close::done()))
    }

    /// The client has sent its confirmation of a deletion. The frame must
    /// be a message. Where it is the single byte `1`, the record of this
    /// user is to be removed; where it is anything else, the store is left
    /// alone and the close reports that nothing was removed.
    pub fn delete_confirmation(state: AuthFinal, frame: Frame) -> (r: Result<Removal, ServerError>)
        ensures
            match expected_binary(frame) {
                Err(error) => r == Err::<Removal, ServerError>(error),
                Ok(payload) => if confirms(payload@) {
                    r matches Ok(Removal::Remove(done)) && done.spec_authenticated()
                        && done.spec_username() == state.spec_username()
                } else {
                    r matches Ok(Removal::Keep(close)) && close.code == CLOSE_NORMAL
                        && close.reason@ == seq![outcome_byte(false)]
                },
            },
    {
        let payload = match Self::expect_binary(frame) {
            Ok(payload) => payload,
            Err(error) => {
                return Err(error);
            },
        };
        let done = state.step(payload);
        if done.authenticated() {
            Ok(Removal::Remove(done))
        } else {
            Ok(Removal::Keep(Close::reporting(false)))
        }
    }

    /// The store has answered the removal. Gives whether a record was
    /// removed and the close to send: a normal one whose reason is the
    /// byte `1` where a record was removed and the byte `0` where none was
    /// there.
    pub fn delete_removed(done: AuthConfirm, removed: Result<bool, String>) -> (r: Result<
        (bool, Close),
        ServerError,
    >)
        ensures
            match removed_decision(removed) {
                Err(error) => r == Err::<(bool, Close), ServerError>(error),
                Ok(existed) => r matches Ok((reported, close)) && reported == existed
                    && close.code == CLOSE_NORMAL && close.reason@ == seq![outcome_byte(existed)],
            },
    {
        match removed {
            Err(text) => Err(ServerError::Database(text)),
            Ok(existed) => Ok((existed, Close::reporting(existed))),
        }
    }
}

} // verus!
