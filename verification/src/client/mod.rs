//! The client: its state machines and the decisions of its sessions.
//!
//! A session alternates between the channel and the decisions below. The
//! caller owns the channel: it sends what a decision hands out, reads the
//! next frame and hands it to the next decision. Every decision takes its
//! phase by value. Where one fails, the caller sends the error's close
//! signal, as far as the channel still lets it, and the session is over.

pub mod authenticate;
pub mod registration;

use crate::client::authenticate::{
    export_key_of, finalization_of, keys_match, session_key_of, AuthenticateConfirm,
    AuthenticateFinish, AuthenticateInitialize, AuthenticateWaiting,
};
use crate::client::registration::{RegistrationInitialize, RegistrationWaiting};
use crate::engine::{engine_login_finish, engine_parsed_registration_response};
use crate::envelope::{
    close_outcome, decode_close_reason, encode_bool_result, envelope_bytes, outcome_byte,
};
use crate::error::ClientError;
use crate::frame::{Frame, OpCode};
use pants_gen::password::PasswordSpec;
use vstd::prelude::*;
use vstd::utf8::encode_utf8;

verus! {

/// Where the server is.
#[derive(Debug)]
pub struct Client {
    domain: String,
    port: u16,
}

/// A login whose password the library has chosen and the user has yet to
/// repeat.
pub struct LoginStart {
    username: String,
    password: String,
}

/// A username with the password that the user has confirmed.
pub struct LoginInfo {
    username: String,
    password: String,
}

/// `PasswordSpec::default().generate()`: a random password of the default
/// shape. The default shape asks for four characters at least and has room
/// for them, so a password always comes back; nothing else is assumed.
#[verifier::external_body]
fn generate_password() -> (password: Option<String>)
    ensures
        password is Some,
{
    PasswordSpec::default().generate()
}

/// What a client makes of a frame where it expects a message: the payload
/// of a binary frame, `ClosedEarly` for a close frame, `UnexpectedFrame`
/// for any other.
pub open spec fn expected_binary(frame: Frame) -> Result<Vec<u8>, ClientError> {
    match frame.opcode {
        OpCode::Binary => Ok(frame.payload),
        OpCode::Close => Err(ClientError::ClosedEarly),
        _ => Err(ClientError::UnexpectedFrame(frame.opcode, frame.payload)),
    }
}

/// What a client makes of a frame where it expects the server to close:
/// the payload of a close frame, `UnexpectedFrame` for any other.
pub open spec fn expected_close(frame: Frame) -> Result<Vec<u8>, ClientError> {
    match frame.opcode {
        OpCode::Close => Ok(frame.payload),
        _ => Err(ClientError::UnexpectedFrame(frame.opcode, frame.payload)),
    }
}

impl LoginStart {
    /// The username.
    pub closed spec fn spec_username(&self) -> Seq<char> {
        self.username@
    }

    /// The password that the library chose.
    pub closed spec fn spec_password(&self) -> Seq<char> {
        self.password@
    }

    /// A login for `username` with a password chosen at random.
    pub fn new(username: String) -> (start: Self)
        ensures
            start.spec_username() == username@,
    {
        let password = generate_password().unwrap();
        LoginStart { username, password }
    }

    /// The password that the library chose, to be shown to the user.
    pub fn password(&self) -> (password: &str)
        ensures
            password@ == self.spec_password(),
    {
        self.password.as_str()
    }

    /// The login, once the user has repeated the chosen password: `Some`
    /// exactly where `password` is the chosen one.
    pub fn confirm(self, password: String) -> (r: Option<LoginInfo>)
        ensures
            match r {
                Some(info) => password@ == self.spec_password() && info.spec_username()
                    == self.spec_username() && info.spec_password() == self.spec_password(),
                None => password@ != self.spec_password(),
            },
    {
        if password == self.password {
            Some(LoginInfo { username: self.username, password: self.password })
        } else {
            None
        }
    }
}

impl LoginInfo {
    /// The username.
    pub closed spec fn spec_username(&self) -> Seq<char> {
        self.username@
    }

    /// The confirmed password.
    pub closed spec fn spec_password(&self) -> Seq<char> {
        self.password@
    }

    /// Begins a login with the confirmed password; see
    /// [`Client::authenticate`].
    pub fn authenticate(self, client: Client) -> (r: Result<
        (AuthenticateInitialize, Vec<u8>),
        ClientError,
    >)
        ensures
            r matches Ok((phase, out)) ==> phase.spec_username() == encode_utf8(
                self.spec_username(),
            ) && phase.spec_password() == encode_utf8(self.spec_password()) && out@
                == envelope_bytes(phase.spec_username(), phase.spec_request()),
            r matches Err(error) ==> error is ProtocolError,
    {
        client.authenticate(self.username, self.password)
    }
}

impl Client {
    /// The server's host name.
    pub closed spec fn spec_domain(&self) -> Seq<char> {
        self.domain@
    }

    /// The server's port.
    pub closed spec fn spec_port(&self) -> u16 {
        self.port
    }

    /// A client of the server at `domain` and `port`.
    pub fn new(domain: String, port: u16) -> (client: Self)
        ensures
            client.spec_domain() == domain@,
            client.spec_port() == port,
    {
        Client { domain, port }
    }

    /// The server's host name.
    pub fn domain(&self) -> (domain: &str)
        ensures
            domain@ == self.spec_domain(),
    {
        self.domain.as_str()
    }

    /// The server's port.
    pub fn port(&self) -> (port: u16)
        ensures
            port == self.spec_port(),
    {
        self.port
    }

    /// Takes the payload of a frame that must be a message.
    pub fn expect_binary(frame: Frame) -> (r: Result<Vec<u8>, ClientError>)
        ensures
            r == expected_binary(frame),
    {
        match frame.opcode {
            OpCode::Binary => Ok(frame.payload),
            OpCode::Close => Err(ClientError::ClosedEarly),
            _ => Err(ClientError::from(frame)),
        }
    }

    /// Takes the payload of a frame that must be the server's close.
    pub fn expect_close(frame: Frame) -> (r: Result<Vec<u8>, ClientError>)
        ensures
            r == expected_close(frame),
    {
        match frame.opcode {
            OpCode::Close => Ok(frame.payload),
            _ => Err(ClientError::from(frame)),
        }
    }

    /// Begins a registration: the first phase and the envelope to send.
    /// Fails only where the engine rejects the password.
    pub fn register(&self, username: String, password: String) -> (r: Result<
        (RegistrationInitialize, Vec<u8>),
        ClientError,
    >)
        ensures
            r matches Ok((phase, out)) ==> phase.spec_username() == encode_utf8(username@)
                && phase.spec_password() == encode_utf8(password@) && out@ == envelope_bytes(
                phase.spec_username(),
                phase.spec_request(),
            ),
            r matches Err(error) ==> error is ProtocolError,
    {
        match RegistrationInitialize::new(username, password) {
            Ok(phase) => {
                let out = phase.to_data();
                Ok((phase, out))
            },
            Err(error) => Err(error),
        }
    }

    /// The server has answered the registration request. The frame must be
    /// a message that holds a registration response, and the engine must
    /// accept the response for this registration. Gives the next phase and
    /// the upload to send.
    pub fn register_response(state: RegistrationInitialize, frame: Frame) -> (r: Result<
        (RegistrationWaiting, Vec<u8>),
        ClientError,
    >)
        ensures
            match expected_binary(frame) {
                Err(error) => r == Err::<(RegistrationWaiting, Vec<u8>), ClientError>(error),
                Ok(payload) => match r {
                    Ok((phase, out)) => engine_parsed_registration_response(payload@) is Some
                        && out@ == phase.spec_upload(),
                    Err(error) => error is ProtocolError,
                },
            },
    {
        let payload = match Self::expect_binary(frame) {
            Ok(payload) => payload,
            Err(error) => {
                return Err(error);
            },
        };
        match state.step(payload) {
            Ok(phase) => {
                let out = phase.to_data();
                Ok((phase, out))
            },
            Err(error) => Err(error),
        }
    }

    /// The server has answered the upload. The frame must be its close; the
    /// registration succeeded exactly where the last byte of the close
    /// frame's payload is `1`.
    pub fn register_outcome(state: RegistrationWaiting, frame: Frame) -> (r: Result<
        bool,
        ClientError,
    >)
        ensures
            match expected_close(frame) {
                Err(error) => r == Err::<bool, ClientError>(error),
                Ok(payload) => r == Ok::<bool, ClientError>(close_outcome(payload@)),
            },
    {
        match Self::expect_close(frame) {
            Ok(payload) => {
                let _ = state.step();
                Ok(decode_close_reason(payload.as_slice()))
            },
            Err(error) => Err(error),
        }
    }

    /// Begins a login: the first phase and the envelope to send. Fails only
    /// where the engine rejects the password.
    pub fn authenticate(&self, username: String, password: String) -> (r: Result<
        (AuthenticateInitialize, Vec<u8>),
        ClientError,
    >)
        ensures
            r matches Ok((phase, out)) ==> phase.spec_username() == encode_utf8(username@)
                && phase.spec_password() == encode_utf8(password@) && out@ == envelope_bytes(
                phase.spec_username(),
                phase.spec_request(),
            ),
            r matches Err(error) ==> error is ProtocolError,
    {
        match AuthenticateInitialize::new(username, password) {
            Ok(phase) => {
                let out = phase.to_data();
                Ok((phase, out))
            },
            Err(error) => Err(error),
        }
    }

    /// Begins a deletion. On the client's side a deletion is a login, up to
    /// the way its outcome is read.
    pub fn delete(&self, username: String, password: String) -> (r: Result<
        (AuthenticateInitialize, Vec<u8>),
        ClientError,
    >)
        ensures
            r matches Ok((phase, out)) ==> phase.spec_username() == encode_utf8(username@)
                && phase.spec_password() == encode_utf8(password@) && out@ == envelope_bytes(
                phase.spec_username(),
                phase.spec_request(),
            ),
            r matches Err(error) ==> error is ProtocolError,
    {
        self.authenticate(username, password)
    }

    /// The server has answered the credential request. The frame must be a
    /// message; whatever the engine makes of it, the login goes on. Gives
    /// the next phase and the finalization to send, the decoy where the
    /// engine gave none.
    pub fn authenticate_response(state: AuthenticateInitialize, frame: Frame) -> (r: Result<
        (AuthenticateWaiting, Vec<u8>),
        ClientError,
    >)
        ensures
            match expected_binary(frame) {
                Err(error) => r == Err::<(AuthenticateWaiting, Vec<u8>), ClientError>(error),
                Ok(payload) => r matches Ok((phase, out)) && phase.spec_outcome()
                    == engine_login_finish(state.spec_state(), state.spec_password(), payload@)
                    && out@ == finalization_of(phase.spec_outcome()),
            },
    {
        let payload = match Self::expect_binary(frame) {
            Ok(payload) => payload,
            Err(error) => {
                return Err(error);
            },
        };
        match state.step(payload) {
            Ok(phase) => {
                let out = phase.to_data();
                Ok((phase, out))
            },
            Err(error) => Err(error),
        }
    }

    /// The server has sent its session key. The frame must be a message.
    /// Gives the next phase and the confirmation to send: the byte `1`
    /// where the keys match, the byte `0` where they do not.
    pub fn authenticate_session_key(state: AuthenticateWaiting, frame: Frame) -> (r: Result<
        (AuthenticateFinish, Vec<u8>),
        ClientError,
    >)
        ensures
            match expected_binary(frame) {
                Err(error) => r == Err::<(AuthenticateFinish, Vec<u8>), ClientError>(error),
                Ok(payload) => r matches Ok((phase, out)) && phase.spec_server_key() == payload@
                    && phase.spec_outcome() == state.spec_outcome() && out@ == seq![
                    outcome_byte(keys_match(state.spec_outcome(), payload@)),
                ],
            },
    {
        let payload = match Self::expect_binary(frame) {
            Ok(payload) => payload,
            Err(error) => {
                return Err(error);
            },
        };
        let phase = state.step(payload);
        let out = encode_bool_result(phase.to_data());
        Ok((phase, out))
    }

    /// The server has answered the confirmation of a login. The frame must
    /// be its close. Gives the keys where they matched, and nothing where
    /// they did not.
    pub fn authenticate_outcome(state: AuthenticateFinish, frame: Frame) -> (r: Result<
        Option<AuthenticateConfirm>,
        ClientError,
    >)
        ensures
            match expected_close(frame) {
                Err(error) => r == Err::<Option<AuthenticateConfirm>, ClientError>(error),
                Ok(_) => if keys_match(state.spec_outcome(), state.spec_server_key()) {
                    r matches Ok(Some(keys)) && keys.spec_session_key() == session_key_of(
                        state.spec_outcome(),
                    ) && keys.spec_export_key() == export_key_of(state.spec_outcome())
                } else {
                    r matches Ok(None)
                },
            },
    {
        match Self::expect_close(frame) {
            Ok(_) => {
                let matched = state.to_data();
                let keys = state.step();
                if matched {
                    Ok(Some(keys))
                } else {
                    Ok(None)
                }
            },
            Err(error) => Err(error),
        }
    }

    /// The server has answered the confirmation of a deletion. The frame
    /// must be its close; a record was removed exactly where the last byte
    /// of the close frame's payload is `1`.
    pub fn delete_outcome(state: AuthenticateFinish, frame: Frame) -> (r: Result<
        bool,
        ClientError,
    >)
        ensures
            match expected_close(frame) {
                Err(error) => r == Err::<bool, ClientError>(error),
                Ok(payload) => r == Ok::<bool, ClientError>(close_outcome(payload@)),
            },
    {
        match Self::expect_close(frame) {
            Ok(payload) => {
                let _ = state.step();
                Ok(decode_close_reason(payload.as_slice()))
            },
            Err(error) => Err(error),
        }
    }
}

} // verus!
