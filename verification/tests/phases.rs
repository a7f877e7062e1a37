use opaque_ke::errors::ProtocolError;
use tinap::client::authenticate::{
    AuthenticateConfirm, AuthenticateFinish, AuthenticateInitialize, AuthenticateWaiting,
    FINALIZATION_LENGTH,
};
use tinap::client::registration::{RegistrationConfirm, RegistrationInitialize, RegistrationWaiting};
use tinap::engine::{ClientLoginFinish, ClientRegistrationFinish, ServerLoginStart};
use tinap::error::{ClientError, ServerError};
use tinap::server::authenticate::{AuthConfirm, AuthFinal, AuthInitial, AuthWaiting, AuthWithCreds};
use tinap::server::registration::{RegInitial, RegUpload, RegWaiting};
use tinap::server::ServerSetup;
use tinap::WithUsername;

fn register(setup: &ServerSetup, username: &str, password: &str) -> RegUpload {
    let client = RegistrationInitialize::new(username.to_string(), password.to_string()).unwrap();
    let server = RegWaiting::new(setup.duplicate())
        .step(client.to_data())
        .unwrap();
    let client = client.step(server.to_data()).unwrap();
    server.step(client.to_data()).unwrap()
}

#[test]
fn registration_first_message_is_an_envelope_with_the_username() {
    let client = RegistrationInitialize::new("dave".to_string(), "pw".to_string()).unwrap();
    let first = client.to_data();
    let envelope = WithUsername::decode(&first).unwrap();
    assert_eq!(envelope.username, b"dave");
    assert_eq!(envelope.data.len(), 32);
    assert_eq!(first, WithUsername::new(b"dave", envelope.data).encode());
}

#[test]
fn registration_runs_through_both_state_machines() {
    let setup = ServerSetup::generate();
    let client = RegistrationInitialize::new("erin".to_string(), "secret".to_string()).unwrap();
    let first = client.to_data();
    let server = RegWaiting::new(setup.duplicate()).step(first.clone()).unwrap();
    let response = server.to_data();
    assert_ne!(response, first);
    assert_ne!(response, WithUsername::decode(&first).unwrap().data);
    assert_eq!(response.len(), 64);
    let client = client.step(response).unwrap();
    let upload = client.to_data();
    assert!(!client.export_key().is_empty());
    let _: RegistrationConfirm = {
        let stored = server.step(upload.clone()).unwrap();
        let (username, record) = stored.to_data();
        assert_eq!(username, b"erin");
        assert_eq!(record, upload.as_slice());
        client.step()
    };
}

#[test]
fn registration_response_depends_on_request_and_username() {
    let setup = ServerSetup::generate();
    let client = RegistrationInitialize::new("frank".to_string(), "pw".to_string()).unwrap();
    let first = client.to_data();
    let once = RegWaiting::new(setup.duplicate()).step(first.clone()).unwrap();
    let again = RegWaiting::new(setup.duplicate()).step(first.clone()).unwrap();
    assert_eq!(once.to_data(), again.to_data());
    let request = WithUsername::decode(&first).unwrap().data.to_vec();
    let other = WithUsername::new(b"grace", &request).encode();
    let other = RegWaiting::new(setup.duplicate()).step(other).unwrap();
    assert_ne!(once.to_data(), other.to_data());
}

#[test]
fn registration_rejects_a_message_that_is_no_envelope() {
    let setup = ServerSetup::generate();
    let result = RegWaiting::new(setup).step(vec![1, 2, 3]);
    assert!(matches!(result, Err(ServerError::Serialization(_))));
}

#[test]
fn registration_rejects_an_envelope_without_a_request() {
    let setup = ServerSetup::generate();
    let first = WithUsername::new(b"heidi", b"not a request").encode();
    let result = RegWaiting::new(setup).step(first);
    assert!(matches!(result, Err(ServerError::ProtocolError(_))));
}

#[test]
fn registration_rejects_an_upload_that_is_none() {
    let phase = RegInitial::new(b"ivan".to_vec(), vec![1, 2, 3]);
    assert_eq!(phase.to_data(), vec![1, 2, 3]);
    let result = phase.step(vec![0; 5]);
    assert!(matches!(
        result,
        Err(ServerError::ProtocolError(ProtocolError::LibraryError(_)))
            | Err(ServerError::ProtocolError(ProtocolError::SerializationError))
    ));
}

#[test]
fn registration_client_rejects_a_response_that_is_none() {
    let client = RegistrationInitialize::new("judy".to_string(), "pw".to_string()).unwrap();
    let result = client.step(vec![9; 3]);
    assert!(matches!(result, Err(ClientError::ProtocolError(_))));
}

#[test]
fn registration_started_hands_the_engines_error_on() {
    let result = RegistrationInitialize::started(
        "u".to_string(),
        "p".to_string(),
        Err(ProtocolError::ReflectedValueError),
    );
    assert!(matches!(
        result,
        Err(ClientError::ProtocolError(ProtocolError::ReflectedValueError))
    ));
    let result = RegistrationWaiting::finished(Err(ProtocolError::InvalidLoginError));
    assert!(matches!(
        result,
        Err(ClientError::ProtocolError(ProtocolError::InvalidLoginError))
    ));
    let phase = RegistrationWaiting::finished(Ok(ClientRegistrationFinish {
        message: vec![1, 2],
        export_key: vec![3],
    }))
    .unwrap();
    assert_eq!(phase.to_data(), vec![1, 2]);
    assert_eq!(phase.export_key(), &[3]);
    let phase = RegistrationWaiting::new(ClientRegistrationFinish {
        message: vec![7],
        export_key: vec![8, 9],
    });
    assert_eq!(phase.to_data(), vec![7]);
    assert_eq!(phase.export_key(), &[8, 9]);
}

#[test]
fn upload_phase_holds_username_and_record() {
    let phase = RegUpload::new(b"kim".to_vec(), vec![5, 6, 7]);
    let (username, record) = phase.to_data();
    assert_eq!(username, b"kim");
    assert_eq!(record, &[5, 6, 7]);
}

#[test]
fn login_with_the_registered_password_matches() {
    let setup = ServerSetup::generate();
    let stored = register(&setup, "leo", "correct horse");
    let (_, record) = stored.to_data();

    let client =
        AuthenticateInitialize::new("leo".to_string(), "correct horse".to_string()).unwrap();
    let server = AuthWaiting::new(setup.duplicate())
        .step(client.to_data())
        .unwrap();
    assert_eq!(server.username(), b"leo");
    let server = server.step(record.to_vec()).unwrap();
    let client = client.step(server.to_data()).unwrap();
    assert!(client.accepted());
    let finalization = client.to_data();
    assert_eq!(finalization.len(), FINALIZATION_LENGTH);
    let server = server.step(finalization).unwrap();
    let server_key = server.to_data();
    let client = client.step(server_key.clone());
    assert!(client.to_data());
    let keys = client.step();
    assert_eq!(keys.session_key(), server_key.as_slice());
    assert_eq!(keys.session_key().len(), 64);
    assert_eq!(keys.export_key().len(), 64);
    let done = server.step(vec![1]);
    assert!(done.authenticated());
    assert_eq!(done.username(), b"leo");
}

#[test]
fn login_with_a_wrong_password_does_not_match() {
    let setup = ServerSetup::generate();
    let stored = register(&setup, "mia", "right");
    let (_, record) = stored.to_data();

    let client = AuthenticateInitialize::new("mia".to_string(), "wrong".to_string()).unwrap();
    let server = AuthWaiting::new(setup.duplicate())
        .step(client.to_data())
        .unwrap();
    let server = server.step(record.to_vec()).unwrap();
    let client = client.step(server.to_data()).unwrap();
    assert!(!client.accepted());
    let finalization = client.to_data();
    assert_eq!(finalization, vec![0u8; FINALIZATION_LENGTH]);
    let result = server.step(finalization);
    assert!(matches!(
        result,
        Err(ServerError::ProtocolError(ProtocolError::InvalidLoginError))
    ));
    for server_key in [vec![], vec![0u8; 64], vec![1u8; 64]] {
        let waiting = AuthenticateWaiting::finished(Err(ProtocolError::InvalidLoginError));
        let finish = waiting.step(server_key);
        assert!(!finish.to_data());
        let keys = finish.step();
        assert!(keys.session_key().is_empty());
        assert!(keys.export_key().is_empty());
    }
}

#[test]
fn login_goes_on_after_a_damaged_response() {
    let client = AuthenticateInitialize::new("nina".to_string(), "pw".to_string()).unwrap();
    let client = client.step(vec![1, 2, 3]).unwrap();
    assert!(!client.accepted());
    assert_eq!(client.to_data(), vec![0u8; FINALIZATION_LENGTH]);
    assert!(!client.step(vec![]).to_data());
}

#[test]
fn login_first_message_is_an_envelope_with_the_username() {
    let client = AuthenticateInitialize::new("olaf".to_string(), "pw".to_string()).unwrap();
    let first = client.to_data();
    let envelope = WithUsername::decode(&first).unwrap();
    assert_eq!(envelope.username, b"olaf");
    assert_eq!(envelope.data.len(), 96);
}

#[test]
fn login_started_hands_the_engines_error_on() {
    let result = AuthenticateInitialize::started(
        "u".to_string(),
        "p".to_string(),
        Err(ProtocolError::SerializationError),
    );
    assert!(matches!(
        result,
        Err(ClientError::ProtocolError(ProtocolError::SerializationError))
    ));
}

#[test]
fn key_comparison_is_byte_equality_with_the_derived_key() {
    let keys = || ClientLoginFinish {
        message: vec![1],
        session_key: vec![2, 3],
        export_key: vec![4],
    };
    assert!(AuthenticateFinish::new(vec![2, 3], keys()).to_data());
    assert!(!AuthenticateFinish::new(vec![2, 4], keys()).to_data());
    assert!(!AuthenticateFinish::new(vec![2], keys()).to_data());
    assert!(!AuthenticateFinish::new(vec![], keys()).to_data());
    let waiting = AuthenticateWaiting::new(keys());
    assert!(waiting.accepted());
    assert_eq!(waiting.to_data(), vec![1]);
    let finish = waiting.step(vec![2, 3]);
    assert!(finish.to_data());
    let done = finish.step();
    assert_eq!(done.session_key(), &[2, 3]);
    assert_eq!(done.export_key(), &[4]);
    let done = AuthenticateConfirm::new(vec![5], vec![6, 7]);
    assert_eq!(done.session_key(), &[5]);
    assert_eq!(done.export_key(), &[6, 7]);
}

#[test]
fn login_server_rejects_a_message_that_is_no_envelope() {
    let setup = ServerSetup::generate();
    let result = AuthWaiting::new(setup).step(vec![0; 7]);
    assert!(matches!(result, Err(ServerError::Serialization(_))));
}

#[test]
fn login_server_rejects_an_envelope_without_a_request() {
    let setup = ServerSetup::generate();
    let first = WithUsername::new(b"pat", &[0u8; 10]).encode();
    let result = AuthWaiting::new(setup).step(first);
    assert!(matches!(result, Err(ServerError::ProtocolError(_))));
}

#[test]
fn login_server_rejects_a_record_that_is_none() {
    let setup = ServerSetup::generate();
    let client = AuthenticateInitialize::new("quin".to_string(), "pw".to_string()).unwrap();
    let server = AuthWaiting::new(setup).step(client.to_data()).unwrap();
    let result = server.step(vec![1, 2, 3]);
    assert!(matches!(result, Err(ServerError::ProtocolError(_))));
}

#[test]
fn login_server_rejects_a_finalization_that_is_none() {
    let phase = AuthWithCreds::new(
        b"rae".to_vec(),
        ServerLoginStart {
            message: vec![1],
            state: vec![2],
        },
    );
    assert_eq!(phase.to_data(), vec![1]);
    let result = phase.step(vec![3]);
    assert!(matches!(result, Err(ServerError::ProtocolError(_))));
    let result = AuthWithCreds::started(b"rae".to_vec(), Err(ProtocolError::InvalidLoginError));
    assert!(matches!(
        result,
        Err(ServerError::ProtocolError(ProtocolError::InvalidLoginError))
    ));
}

#[test]
fn login_server_keeps_the_canonical_request() {
    let setup = ServerSetup::generate();
    let phase = AuthInitial::new(b"sam".to_vec(), vec![1, 2], setup);
    assert_eq!(phase.username(), b"sam");
}

#[test]
fn confirmation_is_the_single_byte_one() {
    let confirm = |message: Vec<u8>| AuthFinal::new(b"tess".to_vec(), vec![9; 64]).step(message);
    assert!(confirm(vec![1]).authenticated());
    assert!(!confirm(vec![0]).authenticated());
    assert!(!confirm(vec![]).authenticated());
    assert!(!confirm(vec![1, 1]).authenticated());
    assert!(!confirm(vec![2]).authenticated());
    assert_eq!(confirm(vec![1]).username(), b"tess");
    let phase = AuthFinal::new(b"tess".to_vec(), vec![7, 8]);
    assert_eq!(phase.to_data(), vec![7, 8]);
    let done = AuthConfirm::new(true, b"uma".to_vec());
    assert!(done.authenticated());
    assert_eq!(done.username(), b"uma");
    let done = AuthConfirm::new(false, vec![]);
    assert!(!done.authenticated());
    assert!(done.username().is_empty());
}

#[test]
fn setup_is_accepted_from_its_own_bytes_only() {
    let setup = ServerSetup::generate();
    let bytes = setup.as_bytes().to_vec();
    assert_eq!(bytes.len(), 128);
    let again = ServerSetup::from_bytes(bytes.clone()).unwrap();
    assert_eq!(again.as_bytes(), bytes.as_slice());
    assert_eq!(setup.duplicate().as_bytes(), bytes.as_slice());
    assert!(matches!(
        ServerSetup::from_bytes(vec![1, 2, 3]),
        Err(ServerError::ProtocolError(_))
    ));
    assert!(matches!(
        ServerSetup::from_bytes(vec![]),
        Err(ServerError::ProtocolError(_))
    ));
    assert_ne!(ServerSetup::generate().as_bytes(), bytes.as_slice());
}

#[test]
fn steps_take_messages_of_any_length() {
    let setup = ServerSetup::generate();
    for fill in [0u8, 1, 0x7F, 0xFF] {
        for length in [0usize, 1, 7, 8, 31, 32, 33, 63, 64, 65, 95, 96, 97, 128, 192, 193, 320, 321, 400] {
            let message = vec![fill; length];
            let _ = RegWaiting::new(setup.duplicate()).step(message.clone());
            let _ = RegWaiting::new(setup.duplicate())
                .step(WithUsername::new(b"u", &message).encode());
            let _ = RegInitial::new(b"u".to_vec(), vec![]).step(message.clone());
            let _ = AuthWaiting::new(setup.duplicate()).step(message.clone());
            let _ = AuthWaiting::new(setup.duplicate())
                .step(WithUsername::new(b"u", &message).encode());
            let _ = AuthInitial::new(b"u".to_vec(), message.clone(), setup.duplicate())
                .step(message.clone());
            let start = ServerLoginStart {
                message: vec![],
                state: message.clone(),
            };
            let _ = AuthWithCreds::new(b"u".to_vec(), start).step(message.clone());
            let _ = ServerSetup::from_bytes(message.clone());
        }
    }
}

#[test]
fn client_steps_take_responses_of_any_length() {
    let registration = || RegistrationInitialize::new("u".to_string(), "p".to_string()).unwrap();
    let login = || AuthenticateInitialize::new("u".to_string(), "p".to_string()).unwrap();
    for fill in [0u8, 0xFF] {
        for length in [0usize, 1, 32, 63, 64, 65, 319, 320, 321] {
            let message = vec![fill; length];
            assert!(registration().step(message.clone()).is_err());
            let waiting = login().step(message).unwrap();
            assert!(!waiting.accepted());
        }
    }
}
