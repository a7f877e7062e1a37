use opaque_ke::errors::ProtocolError;
use tinap::envelope::{decode_close_reason, MalformedEnvelope};
use tinap::error::{ClientError, ServerError};
use tinap::frame::{Close, Frame, OpCode, CLOSE_NORMAL, CLOSE_POLICY, CLOSE_TRANSPORT};

fn client_errors() -> Vec<ClientError> {
    vec![
        ClientError::ClosedEarly,
        ClientError::ProtocolError(ProtocolError::InvalidLoginError),
        ClientError::NotAuthenticated,
        ClientError::Websocket("closed".to_string()),
        ClientError::IOError("refused".to_string()),
        ClientError::HyperError("bad header".to_string()),
        ClientError::UnexpectedFrame(OpCode::Text, vec![1, 2]),
    ]
}

fn server_errors() -> Vec<ServerError> {
    vec![
        ServerError::ClosedEarly,
        ServerError::UserAlreadyExists,
        ServerError::UserDoesNotExist,
        ServerError::ProtocolError(ProtocolError::SerializationError),
        ServerError::Websocket("closed".to_string()),
        ServerError::IOError("refused".to_string()),
        ServerError::HyperError("bad header".to_string()),
        ServerError::UnexpectedFrame(OpCode::Ping, vec![]),
        ServerError::Serialization(MalformedEnvelope),
        ServerError::Database("disk full".to_string()),
    ]
}

#[test]
fn close_codes_have_their_values() {
    assert_eq!(CLOSE_NORMAL, 1000);
    assert_eq!(CLOSE_TRANSPORT, 1002);
    assert_eq!(CLOSE_POLICY, 1008);
}

#[test]
fn client_error_codes() {
    let codes: Vec<u16> = client_errors().iter().map(|e| e.to_code()).collect();
    assert_eq!(codes, vec![1008, 1008, 1008, 1002, 1002, 1002, 1008]);
}

#[test]
fn server_error_codes() {
    let codes: Vec<u16> = server_errors().iter().map(|e| e.to_code()).collect();
    assert_eq!(
        codes,
        vec![1008, 1008, 1008, 1008, 1002, 1002, 1002, 1008, 1008, 1008]
    );
}

#[test]
fn no_error_maps_to_the_normal_code() {
    for error in client_errors() {
        assert_ne!(error.to_code(), CLOSE_NORMAL);
    }
    for error in server_errors() {
        assert_ne!(error.to_code(), CLOSE_NORMAL);
    }
}

#[test]
fn client_error_texts() {
    let texts: Vec<&str> = client_errors().iter().map(|e| e.reason()).collect();
    assert_eq!(
        texts,
        vec![
            "Communication terminated early",
            "Protocol error",
            "Failed to authenticate",
            "Websocket connection error",
            "Error with io",
            "Error with http communication",
            "Received unexpected frame",
        ]
    );
}

#[test]
fn server_error_texts() {
    let texts: Vec<&str> = server_errors().iter().map(|e| e.reason()).collect();
    assert_eq!(
        texts,
        vec![
            "Communication terminated early",
            "User already exists",
            "User does not exist",
            "Protocol error",
            "Websocket connection error",
            "Error with io",
            "Error with http connection",
            "Received unexpected frame",
            "Error deserializing data",
            "Error interacting with database",
        ]
    );
}

#[test]
fn error_close_carries_code_and_text() {
    let close = ServerError::UserAlreadyExists.to_close();
    assert_eq!(close.code, 1008);
    assert_eq!(close.reason, b"User already exists".to_vec());
    let close = ClientError::IOError("refused".to_string()).to_close();
    assert_eq!(close.code, 1002);
    assert_eq!(close.reason, b"Error with io".to_vec());
}

#[test]
fn error_close_never_reads_as_success() {
    for error in client_errors() {
        let close = error.to_close();
        let mut payload = close.code.to_be_bytes().to_vec();
        payload.extend_from_slice(&close.reason);
        assert!(!decode_close_reason(&close.reason));
        assert!(!decode_close_reason(&payload));
    }
    for error in server_errors() {
        let close = error.to_close();
        let mut payload = close.code.to_be_bytes().to_vec();
        payload.extend_from_slice(&close.reason);
        assert!(!decode_close_reason(&close.reason));
        assert!(!decode_close_reason(&payload));
    }
}

#[test]
fn reporting_close_is_normal_and_ends_with_the_outcome() {
    let close = Close::reporting(true);
    assert_eq!(close.code, 1000);
    assert_eq!(close.reason, vec![1]);
    assert!(decode_close_reason(&close.reason));
    let close = Close::reporting(false);
    assert_eq!(close.code, 1000);
    assert_eq!(close.reason, vec![0]);
    assert!(!decode_close_reason(&close.reason));
}

#[test]
fn done_close_is_normal_with_its_text() {
    let close = Close::done();
    assert_eq!(close.code, 1000);
    assert_eq!(close.reason, b"done".to_vec());
}

#[test]
fn unexpected_frame_becomes_an_error_with_its_kind_and_payload() {
    let frame = Frame {
        opcode: OpCode::Pong,
        payload: vec![4, 5, 6],
    };
    match ClientError::from(frame.clone()) {
        ClientError::UnexpectedFrame(opcode, payload) => {
            assert_eq!(opcode, OpCode::Pong);
            assert_eq!(payload, vec![4, 5, 6]);
        }
        other => panic!("{other:?}"),
    }
    match ServerError::from(frame) {
        ServerError::UnexpectedFrame(opcode, payload) => {
            assert_eq!(opcode, OpCode::Pong);
            assert_eq!(payload, vec![4, 5, 6]);
        }
        other => panic!("{other:?}"),
    }
}
