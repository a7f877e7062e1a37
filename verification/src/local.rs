//! Both sides of a flow in one process, without a channel and without a
//! store: the client's messages are handed to the server's state machine
//! and back.

use crate::bytes::copy_bytes;
use crate::client::authenticate::{
    finalization_of, keys_match, session_key_of, AuthenticateInitialize,
};
use crate::client::registration::RegistrationInitialize;
use crate::engine::{
    engine_credential_request, engine_login_finish, engine_parsed_registration_response,
    engine_registration_record, engine_registration_response, engine_session_key,
};
use crate::error::{ClientError, ServerError};
use crate::server::ServerSetup;
use crate::server::authenticate::{AuthWaiting, AuthWithCreds};
use crate::server::registration::RegWaiting;
use vstd::prelude::*;
use vstd::utf8::encode_utf8;

verus! {

/// The side on which a flow in one process failed, with its error.
#[derive(Debug)]
pub enum Failure {
    Client(ClientError),
    Server(ServerError),
}

/// Whether a client and a server agree on a login: the client, in `state`
/// and with `password`, accepts `response` and derives a session key; the
/// server, in `server_state`, accepts the client's finalization and derives
/// the same key.
pub open spec fn login_agrees(
    state: Seq<u8>,
    password: Seq<u8>,
    response: Seq<u8>,
    server_state: Seq<u8>,
) -> bool {
    match engine_login_finish(state, password, response) {
        Some((finalization, session_key, _)) => engine_session_key(server_state, finalization)
            == Some(session_key),
        None => false,
    }
}

/// Where a client and a server agree on a login, the client's comparison
/// of its session key with the one that the server sends succeeds, and the
/// key that the login leaves to the caller is the server's.
pub proof fn lemma_agreement_matches(
    state: Seq<u8>,
    password: Seq<u8>,
    response: Seq<u8>,
    server_state: Seq<u8>,
)
    requires
        login_agrees(state, password, response, server_state),
    ensures
        ({
            let outcome = engine_login_finish(state, password, response);
            let sent = engine_session_key(server_state, finalization_of(outcome));
            &&& sent is Some
            &&& keys_match(outcome, sent->Some_0)
            &&& session_key_of(outcome) == sent->Some_0
        }),
{
}

/// What a login comes to once the server has answered the credential
/// request: `false` where the client's engine rejects the response, else
/// whether the session key that the server derives from the client's
/// finalization is the client's own; nothing where the server's engine
/// rejects the finalization.
pub open spec fn login_verdict(
    state: Seq<u8>,
    password: Seq<u8>,
    response: Seq<u8>,
    server_state: Seq<u8>,
) -> Option<bool> {
    match engine_login_finish(state, password, response) {
        None => Some(false),
        Some((finalization, session_key, _)) => match engine_session_key(
            server_state,
            finalization,
        ) {
            None => None,
            Some(server_key) => Some(session_key == server_key),
        },
    }
}

/// Whether a registration of `username` at a server with `setup` went this
/// way: the server answered `request`, the client took the answer for a
/// registration response, and `record` is what the engine makes of the
/// client's `upload`.
pub open spec fn registration_ran(
    setup: Seq<u8>,
    username: Seq<u8>,
    request: Seq<u8>,
    upload: Seq<u8>,
    record: Seq<u8>,
) -> bool {
    &&& engine_registration_response(setup, request, username) matches Some(response)
    &&& engine_parsed_registration_response(response) is Some
    &&& engine_registration_record(upload) == Some(record)
}

/// Whether a login with `password` went this way: the server took
/// `request` for a credential request, and the two sides, in `state` and
/// `server_state`, came to the verdict `matched` on the server's
/// `response`.
pub open spec fn login_ran(
    request: Seq<u8>,
    state: Seq<u8>,
    password: Seq<u8>,
    response: Seq<u8>,
    server_state: Seq<u8>,
    matched: bool,
) -> bool {
    &&& engine_credential_request(request) is Some
    &&& login_verdict(state, password, response, server_state) == Some(matched)
}

/// A verdict of `true` is an agreement, and the other way round.
pub proof fn lemma_verdict_is_agreement(
    state: Seq<u8>,
    password: Seq<u8>,
    response: Seq<u8>,
    server_state: Seq<u8>,
)
    ensures
        login_verdict(state, password, response, server_state) == Some(true) <==> login_agrees(
            state,
            password,
            response,
            server_state,
        ),
{
}

/// Registers `username` with `password` at a server with `server_setup`,
/// and gives the credential record that the server would store. The
/// client's first message always reaches the server as an envelope for
/// `username`; from there the engine decides on both sides, and every
/// failure is the engine's. A record that comes back is what the engine
/// makes of the client's upload, after the server answered the client's
/// request for this username under this key material.
pub fn account_registration(server_setup: &ServerSetup, username: String, password: String) -> (r:
    Result<Vec<u8>, Failure>)
    ensures
        r matches Ok(record) ==> (exists|request: Seq<u8>, upload: Seq<u8>|
            registration_ran(server_setup@, encode_utf8(username@), request, upload, record@)),
        r matches Err(Failure::Client(error)) ==> error is ProtocolError,
        r matches Err(Failure::Server(error)) ==> error is ProtocolError,
{
    let client = match RegistrationInitialize::new(username, password) {
        Ok(client) => client,
        Err(error) => {
            return Err(Failure::Client(error));
        },
    };
    let ghost request = client.spec_request();
    let server = match RegWaiting::new(server_setup.duplicate()).step(client.to_data()) {
        Ok(server) => server,
        Err(error) => {
            return Err(Failure::Server(error));
        },
    };
    let client = match client.step(server.to_data()) {
        Ok(client) => client,
        Err(error) => {
            return Err(Failure::Client(error));
        },
    };
    let ghost upload = client.spec_upload();
    let stored = match server.step(client.to_data()) {
        Ok(stored) => stored,
        Err(error) => {
            return Err(Failure::Server(error));
        },
    };
    let record = copy_bytes(stored.to_data().1);
    let r: Result<Vec<u8>, Failure> = Ok(record);
    assert(registration_ran(server_setup@, encode_utf8(username@), request, upload, r->Ok_0@));
    r
}

/// The end of a login in one process, from the point where the server has
/// answered the credential request: the verdict of the two sides. Where
/// the client's engine rejects the server's response, as it does for a
/// wrong password, the verdict is `false` and the server is not asked
/// again. Where the server's engine rejects the client's finalization, the
/// login fails with the server's `ProtocolError`.
pub fn conclude_login(client: AuthenticateInitialize, server: AuthWithCreds) -> (r: Result<
    bool,
    Failure,
>)
    ensures
        match login_verdict(
            client.spec_state(),
            client.spec_password(),
            server.spec_response(),
            server.spec_state(),
        ) {
            Some(matched) => r matches Ok(verdict) && verdict == matched,
            None => r matches Err(Failure::Server(ServerError::ProtocolError(_))),
        },
{
    let client = match client.step(server.to_data()) {
        Ok(client) => client,
        Err(error) => {
            return Err(Failure::Client(error));
        },
    };
    if !client.accepted() {
        return Ok(false);
    }
    let server = match server.step(client.to_data()) {
        Ok(server) => server,
        Err(error) => {
            return Err(Failure::Server(error));
        },
    };
    let client = client.step(server.to_data());
    Ok(client.to_data())
}

/// Logs `username` in with `password` at a server with `server_setup` that
/// holds `password_file_bytes` for the user, and tells whether the two
/// sides hold the same session key. The client's first message always
/// reaches the server as an envelope for `username`; from there the engine
/// decides on both sides, and every failure is the engine's. An answer is
/// the verdict of the two sides on the server's response; an answer of
/// `true` means that they agree on the login.
pub fn account_login(
    server_setup: &ServerSetup,
    username: String,
    password: String,
    password_file_bytes: &[u8],
) -> (r: Result<bool, Failure>)
    ensures
        r matches Ok(matched) ==> (exists|
            request: Seq<u8>,
            state: Seq<u8>,
            response: Seq<u8>,
            server_state: Seq<u8>,
        |
            login_ran(request, state, encode_utf8(password@), response, server_state, matched)),
        r matches Err(Failure::Client(error)) ==> error is ProtocolError,
        r matches Err(Failure::Server(error)) ==> error is ProtocolError,
        r matches Ok(true) ==> (exists|state: Seq<u8>, response: Seq<u8>, server_state: Seq<u8>|
            login_agrees(state, encode_utf8(password@), response, server_state)),
{
    let client = match AuthenticateInitialize::new(username, password) {
        Ok(client) => client,
        Err(error) => {
            return Err(Failure::Client(error));
        },
    };
    let ghost request = client.spec_request();
    let server = match AuthWaiting::new(server_setup.duplicate()).step(client.to_data()) {
        Ok(server) => server,
        Err(error) => {
            return Err(Failure::Server(error));
        },
    };
    let server = match server.step(copy_bytes(password_file_bytes)) {
        Ok(server) => server,
        Err(error) => {
            return Err(Failure::Server(error));
        },
    };
    let ghost state = client.spec_state();
    let ghost response = server.spec_response();
    let ghost server_state = server.spec_state();
    let r = conclude_login(client, server);
    proof {
        if let Ok(matched) = r {
            assert(login_ran(
                request,
                state,
                encode_utf8(password@),
                response,
                server_state,
                matched,
            ));
            if matched {
                assert(login_agrees(state, encode_utf8(password@), response, server_state));
            }
        }
    }
    r
}

} // verus!
