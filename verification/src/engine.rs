//! The boundary to the OPAQUE engine.
//!
//! The state machines of this library hold every engine value in its
//! serialized form, as plain bytes. Each function here takes bytes, lets
//! the engine work on them, and hands bytes back. None of their bodies is
//! verified: their contracts are what the rest of the library assumes of
//! the engine.
//!
//! Where the engine draws random numbers, nothing is said of the result.
//! Where its result depends on its arguments alone, the result has a name
//! (`engine_...` below), so that the state machines can say exactly which
//! bytes they hand on.

use opaque_ke::{
    ClientLogin, ClientLoginFinishParameters, ClientRegistration,
    ClientRegistrationFinishParameters, CredentialFinalization, CredentialRequest,
    CredentialResponse, RegistrationRequest, RegistrationResponse, RegistrationUpload,
    Ristretto255, ServerLogin, ServerLoginStartParameters, ServerRegistration,
};
use opaque_ke::errors::ProtocolError;
use opaque_ke::key_exchange::tripledh::TripleDh;
use rand::rngs::OsRng;
use vstd::prelude::*;

verus! {

/// `opaque_ke::key_exchange::tripledh::TripleDh`, the key exchange of the
/// cipher suite. Nothing is assumed of it.
#[verifier::external_type_specification]
#[verifier::external_body]
pub struct ExTripleDh(TripleDh);

/// `argon2::Argon2`, the key stretching function of the cipher suite.
/// Nothing is assumed of it.
#[verifier::external_type_specification]
#[verifier::external_body]
pub struct ExArgon2<'key>(argon2::Argon2<'key>);

/// `opaque_ke::Ristretto255`, the group of the cipher suite. Nothing is
/// assumed of it.
#[verifier::external_type_specification]
#[verifier::external_body]
pub struct ExRistretto255(Ristretto255);

/// `opaque_ke::errors::ProtocolError`, the error of every engine call. It
/// is carried through unopened.
#[verifier::external_type_specification]
#[verifier::external_body]
#[verifier::reject_recursive_types(T)]
pub struct ExProtocolError<T>(ProtocolError<T>);

/// The cipher suite every session of this library runs under: Ristretto255
/// for the OPRF and the key exchange, triple Diffie-Hellman, and Argon2 with
/// its default parameters to stretch the password, as `opaque_ke` itself
/// implements its `Ksf` for `argon2::Argon2`.
#[derive(Debug, Clone, Copy)]
pub struct Scheme;

impl opaque_ke::CipherSuite for Scheme {
    type OprfCs = Ristretto255;

    type KeGroup = Ristretto255;

    type KeyExchange = TripleDh;

    type Ksf = argon2::Argon2<'static>;
}

/// What a client holds after the first step of a registration.
pub struct ClientRegistrationStart {
    /// The registration request, to be sent to the server.
    pub message: Vec<u8>,
    /// The client's state, needed to finish the registration.
    pub state: Vec<u8>,
}

/// What a client holds after the last step of a registration.
pub struct ClientRegistrationFinish {
    /// The registration upload, to be sent to the server.
    pub message: Vec<u8>,
    /// The export key that the registration produced.
    pub export_key: Vec<u8>,
}

/// What a client holds after the first step of a login.
pub struct ClientLoginStart {
    /// The credential request, to be sent to the server.
    pub message: Vec<u8>,
    /// The client's state, needed to finish the login.
    pub state: Vec<u8>,
}

/// What a client holds after the last step of a login.
pub struct ClientLoginFinish {
    /// The credential finalization, to be sent to the server.
    pub message: Vec<u8>,
    /// The session key as the client derived it.
    pub session_key: Vec<u8>,
    /// The export key that the login recovered.
    pub export_key: Vec<u8>,
}

/// What a server holds after the first step of a login.
pub struct ServerLoginStart {
    /// The credential response, to be sent to the client.
    pub message: Vec<u8>,
    /// The server's state, needed to finish the login.
    pub state: Vec<u8>,
}

/// Whether `setup` is the serialized form of a server setup.
pub uninterp spec fn engine_setup_valid(setup: Seq<u8>) -> bool;

/// The canonical form of a credential request, where `request` is one.
pub uninterp spec fn engine_credential_request(request: Seq<u8>) -> Option<Seq<u8>>;

/// The canonical form of a registration response, where `response` is one.
pub uninterp spec fn engine_parsed_registration_response(response: Seq<u8>) -> Option<Seq<u8>>;

/// The registration response that a server with `setup` gives to `request`
/// for `username`, where the engine gives one.
pub uninterp spec fn engine_registration_response(
    setup: Seq<u8>,
    request: Seq<u8>,
    username: Seq<u8>,
) -> Option<Seq<u8>>;

/// The credential record that the engine makes of a registration upload,
/// where `upload` is one.
pub uninterp spec fn engine_registration_record(upload: Seq<u8>) -> Option<Seq<u8>>;

/// What a client in `state` makes of `response` under `password`: the
/// credential finalization, the session key and the export key, in this
/// order, where the engine accepts the response.
pub uninterp spec fn engine_login_finish(
    state: Seq<u8>,
    password: Seq<u8>,
    response: Seq<u8>,
) -> Option<(Seq<u8>, Seq<u8>, Seq<u8>)>;

/// The session key that a server in `state` derives from `finalization`,
/// where the engine accepts it.
pub uninterp spec fn engine_session_key(state: Seq<u8>, finalization: Seq<u8>) -> Option<
    Seq<u8>,
>;

/// `ServerSetup::new` with the system's random numbers, and
/// `ServerSetup::serialize` of what it gives. The keys are random; all that
/// is assumed of the result is that `ServerSetup::deserialize` accepts it,
/// as the engine documents of the two: the private keys are written as
/// canonical scalars other than zero, which is what reading them back asks
/// for.
#[verifier::external_body]
pub(crate) fn setup_generate() -> (setup: Vec<u8>)
    ensures
        engine_setup_valid(setup@),
{
    opaque_ke::ServerSetup::<Scheme>::new(&mut OsRng).serialize().to_vec()
}

/// `ServerSetup::deserialize`: whether it accepts `setup` as a serialized
/// server setup. That is a function of the bytes, and the contract says no
/// more than that.
#[verifier::external_body]
pub(crate) fn setup_check(setup: &[u8]) -> (r: Result<(), ProtocolError>)
    ensures
        r is Ok == engine_setup_valid(setup@),
{
    opaque_ke::ServerSetup::<Scheme>::deserialize(setup)?;
    Ok(())
}

/// `ClientRegistration::start` with the system's random numbers; the
/// request and the state that it gives are serialized. The blinding is
/// random, so nothing is assumed of the result.
#[verifier::external_body]
pub(crate) fn registration_start(password: &[u8]) -> (r: Result<
    ClientRegistrationStart,
    ProtocolError,
>) {
    let started = ClientRegistration::<Scheme>::start(&mut OsRng, password)?;
    Ok(
        ClientRegistrationStart {
            message: started.message.serialize().to_vec(),
            state: started.state.serialize().to_vec(),
        },
    )
}

/// `RegistrationResponse::deserialize`, and `RegistrationResponse::serialize`
/// of what it gives: the response in its canonical form. It is a function
/// of the bytes, and the contract says no more than that.
#[verifier::external_body]
pub(crate) fn parsed_registration_response(response: &[u8]) -> (r: Result<
    Vec<u8>,
    ProtocolError,
>)
    ensures
        match r {
            Ok(canonical) => engine_parsed_registration_response(response@) == Some(canonical@),
            Err(_) => engine_parsed_registration_response(response@) is None,
        },
{
    Ok(RegistrationResponse::<Scheme>::deserialize(response)?.serialize().to_vec())
}

/// `ClientRegistration::finish` with the system's random numbers and the
/// default parameters, on what `ClientRegistration::deserialize` makes of
/// `state` and `RegistrationResponse::deserialize` of `response`; the
/// upload that it gives is serialized. The envelope is sealed with fresh
/// randomness, so nothing is assumed of the result.
#[verifier::external_body]
pub(crate) fn registration_finish(state: &[u8], password: &[u8], response: &[u8]) -> (r: Result<
    ClientRegistrationFinish,
    ProtocolError,
>) {
    let state = ClientRegistration::<Scheme>::deserialize(state)?;
    let response = RegistrationResponse::<Scheme>::deserialize(response)?;
    let parameters = ClientRegistrationFinishParameters::default();
    let finished = state.finish(&mut OsRng, password, response, parameters)?;
    Ok(
        ClientRegistrationFinish {
            message: finished.message.serialize().to_vec(),
            export_key: finished.export_key.to_vec(),
        },
    )
}

/// `ServerRegistration::start` on what `ServerSetup::deserialize` makes of
/// `setup` and `RegistrationRequest::deserialize` of `request`; the
/// response that it gives is serialized. The engine draws no random numbers
/// here: the response, and whether there is one, is a function of the three
/// arguments, and the contract says no more than that.
#[verifier::external_body]
pub(crate) fn registration_response(setup: &[u8], request: &[u8], username: &[u8]) -> (r: Result<
    Vec<u8>,
    ProtocolError,
>)
    ensures
        match r {
            Ok(response) => engine_registration_response(setup@, request@, username@) == Some(
                response@,
            ),
            Err(_) => engine_registration_response(setup@, request@, username@) is None,
        },
{
    let setup = opaque_ke::ServerSetup::<Scheme>::deserialize(setup)?;
    let request = RegistrationRequest::<Scheme>::deserialize(request)?;
    let started = ServerRegistration::<Scheme>::start(&setup, request, username)?;
    Ok(started.message.serialize().to_vec())
}

/// `ServerRegistration::finish` on what `RegistrationUpload::deserialize`
/// makes of `upload`, and `ServerRegistration::serialize` of what it gives:
/// the credential record to store. The record, and whether there is one,
/// is a function of the upload, and the contract says no more than that.
#[verifier::external_body]
pub(crate) fn registration_record(upload: &[u8]) -> (r: Result<Vec<u8>, ProtocolError>)
    ensures
        match r {
            Ok(record) => engine_registration_record(upload@) == Some(record@),
            Err(_) => engine_registration_record(upload@) is None,
        },
{
    let upload = RegistrationUpload::<Scheme>::deserialize(upload)?;
    Ok(ServerRegistration::<Scheme>::finish(upload).serialize().to_vec())
}

/// `ClientLogin::start` with the system's random numbers; the request and
/// the state that it gives are serialized. The blinding and the key share
/// are random, so nothing is assumed of the result.
#[verifier::external_body]
pub(crate) fn login_start(password: &[u8]) -> (r: Result<ClientLoginStart, ProtocolError>) {
    let started = ClientLogin::<Scheme>::start(&mut OsRng, password)?;
    Ok(
        ClientLoginStart {
            message: started.message.serialize().to_vec(),
            state: started.state.serialize().to_vec(),
        },
    )
}

/// `ClientLogin::finish` with the default parameters, on what
/// `ClientLogin::deserialize` makes of `state` and
/// `CredentialResponse::deserialize` of `response`; the finalization that
/// it gives is serialized. The engine draws no random numbers here: the
/// result, and whether there is one, is a function of the three arguments,
/// and the contract says no more than that.
#[verifier::external_body]
pub(crate) fn login_finish(state: &[u8], password: &[u8], response: &[u8]) -> (r: Result<
    ClientLoginFinish,
    ProtocolError,
>)
    ensures
        match r {
            Ok(keys) => engine_login_finish(state@, password@, response@) == Some(
                (keys.message@, keys.session_key@, keys.export_key@),
            ),
            Err(_) => engine_login_finish(state@, password@, response@) is None,
        },
{
    let state = ClientLogin::<Scheme>::deserialize(state)?;
    let response = CredentialResponse::<Scheme>::deserialize(response)?;
    let finished = state.finish(password, response, ClientLoginFinishParameters::default())?;
    Ok(
        ClientLoginFinish {
            message: finished.message.serialize().to_vec(),
            session_key: finished.session_key.to_vec(),
            export_key: finished.export_key.to_vec(),
        },
    )
}

/// `CredentialRequest::deserialize`, and `CredentialRequest::serialize` of
/// what it gives: the request in its canonical form. It is a function of
/// the bytes, and the contract says no more than that.
#[verifier::external_body]
pub(crate) fn credential_request(request: &[u8]) -> (r: Result<Vec<u8>, ProtocolError>)
    ensures
        match r {
            Ok(canonical) => engine_credential_request(request@) == Some(canonical@),
            Err(_) => engine_credential_request(request@) is None,
        },
{
    Ok(CredentialRequest::<Scheme>::deserialize(request)?.serialize().to_vec())
}

/// `ServerLogin::start` with the system's random numbers and the default
/// parameters, on what `ServerSetup::deserialize` makes of `setup`,
/// `ServerRegistration::deserialize` of `record` and
/// `CredentialRequest::deserialize` of `request`; the response and the
/// state that it gives are serialized. The key share and the masking nonce
/// are random, so nothing is assumed of the result.
#[verifier::external_body]
pub(crate) fn login_response(
    setup: &[u8],
    record: &[u8],
    request: &[u8],
    username: &[u8],
) -> (r: Result<ServerLoginStart, ProtocolError>) {
    let setup = opaque_ke::ServerSetup::<Scheme>::deserialize(setup)?;
    let record = ServerRegistration::<Scheme>::deserialize(record)?;
    let request = CredentialRequest::<Scheme>::deserialize(request)?;
    let parameters = ServerLoginStartParameters::default();
    let started = ServerLogin::start(&mut OsRng, &setup, Some(record), request, username, parameters)?;
    Ok(
        ServerLoginStart {
            message: started.message.serialize().to_vec(),
            state: started.state.serialize().to_vec(),
        },
    )
}

/// `ServerLogin::finish` on what `ServerLogin::deserialize` makes of
/// `state` and `CredentialFinalization::deserialize` of `finalization`. The
/// engine draws no random numbers here: the session key, and whether there
/// is one, is a function of the two arguments, and the contract says no
/// more than that.
#[verifier::external_body]
pub(crate) fn login_session_key(state: &[u8], finalization: &[u8]) -> (r: Result<
    Vec<u8>,
    ProtocolError,
>)
    ensures
        match r {
            Ok(key) => engine_session_key(state@, finalization@) == Some(key@),
            Err(_) => engine_session_key(state@, finalization@) is None,
        },
{
    let state = ServerLogin::<Scheme>::deserialize(state)?;
    let finalization = CredentialFinalization::<Scheme>::deserialize(finalization)?;
    Ok(state.finish(finalization)?.session_key.to_vec())
}

} // verus!
