use tinap::bytes::{append_bytes, copy_bytes, same_bytes};
use tinap::envelope::{
    decode_bool_result, decode_close_reason, encode_bool_result, MalformedEnvelope, LENGTH_PREFIX,
};
use tinap::WithUsername;

#[test]
fn envelope_wire_form_is_two_length_delimited_fields() {
    let envelope = WithUsername::new(b"bob", &[0xAA, 0xBB]);
    let expected: Vec<u8> = vec![
        3, 0, 0, 0, 0, 0, 0, 0, b'b', b'o', b'b', 2, 0, 0, 0, 0, 0, 0, 0, 0xAA, 0xBB,
    ];
    assert_eq!(envelope.encode(), expected);
}

#[test]
fn envelope_of_two_empty_fields_is_two_zero_lengths() {
    let envelope = WithUsername::new(b"", b"");
    assert_eq!(envelope.encode(), vec![0u8; 2 * LENGTH_PREFIX]);
    let bytes = envelope.encode();
    let decoded = WithUsername::decode(&bytes).unwrap();
    assert!(decoded.username.is_empty());
    assert!(decoded.data.is_empty());
}

#[test]
fn envelope_decodes_what_it_encoded() {
    let username = b"alice@example.com".to_vec();
    let data: Vec<u8> = (0u8..=255).collect();
    let bytes = WithUsername::new(&username, &data).encode();
    let decoded = WithUsername::decode(&bytes).unwrap();
    assert_eq!(decoded.username, username.as_slice());
    assert_eq!(decoded.data, data.as_slice());
}

#[test]
fn envelope_ignores_trailing_bytes() {
    let mut bytes = WithUsername::new(b"u", b"d").encode();
    bytes.extend_from_slice(&[9, 9, 9]);
    let decoded = WithUsername::decode(&bytes).unwrap();
    assert_eq!(decoded.username, b"u");
    assert_eq!(decoded.data, b"d");
}

#[test]
fn envelope_with_short_length_prefix_is_malformed() {
    assert_eq!(WithUsername::decode(&[]).err().unwrap(), MalformedEnvelope);
    assert_eq!(
        WithUsername::decode(&[1, 0, 0, 0, 0, 0, 0]).err().unwrap(),
        MalformedEnvelope
    );
    // a whole first field, then a second prefix that is cut short
    let bytes = [1, 0, 0, 0, 0, 0, 0, 0, b'u', 1, 0, 0];
    assert_eq!(WithUsername::decode(&bytes).err().unwrap(), MalformedEnvelope);
}

#[test]
fn envelope_that_announces_more_than_it_holds_is_malformed() {
    let bytes = [4, 0, 0, 0, 0, 0, 0, 0, b'a', b'b', b'c'];
    assert_eq!(WithUsername::decode(&bytes).err().unwrap(), MalformedEnvelope);
    let huge = [0xFF; 8];
    assert_eq!(WithUsername::decode(&huge).err().unwrap(), MalformedEnvelope);
    // the first field fits, the second announces one byte too many
    let bytes = [
        1, 0, 0, 0, 0, 0, 0, 0, b'u', 2, 0, 0, 0, 0, 0, 0, 0, b'd',
    ];
    assert_eq!(WithUsername::decode(&bytes).err().unwrap(), MalformedEnvelope);
}

#[test]
fn envelope_length_is_little_endian() {
    let data = vec![7u8; 258];
    let bytes = WithUsername::new(b"", &data).encode();
    assert_eq!(&bytes[8..16], &[2, 1, 0, 0, 0, 0, 0, 0]);
    assert_eq!(bytes.len(), 16 + 258);
    let decoded = WithUsername::decode(&bytes).unwrap();
    assert_eq!(decoded.data.len(), 258);
}

#[test]
fn envelope_is_what_bincode_writes_for_two_byte_slices() {
    let username: &[u8] = b"carol";
    let data: &[u8] = &[1, 2, 3, 4, 5, 6, 7];
    let ours = WithUsername::new(username, data).encode();
    let theirs = bincode::serialize(&(username, data)).unwrap();
    assert_eq!(ours, theirs);
    let (their_username, their_data): (&[u8], &[u8]) = bincode::deserialize(&ours).unwrap();
    assert_eq!(their_username, username);
    assert_eq!(their_data, data);
}

#[test]
fn envelope_rejects_what_bincode_rejects() {
    let cases: Vec<Vec<u8>> = vec![
        vec![],
        vec![0; 8],
        vec![1, 0, 0, 0, 0, 0, 0, 0],
        vec![0, 0, 0, 0, 0, 0, 0, 0, 1, 0, 0, 0, 0, 0, 0, 0],
        vec![0, 0, 0, 0, 0, 0, 0, 0, 0, 0, 0, 0, 0, 0, 0, 0],
        vec![0, 0, 0, 0, 0, 0, 0, 0, 1, 0, 0, 0, 0, 0, 0, 0, 5, 6],
    ];
    for bytes in cases {
        let ours = WithUsername::decode(&bytes).is_ok();
        let theirs = bincode::deserialize::<(&[u8], &[u8])>(&bytes).is_ok();
        assert_eq!(ours, theirs, "on {bytes:?}");
    }
}

#[test]
fn bool_result_is_one_byte() {
    assert_eq!(encode_bool_result(true), vec![1u8]);
    assert_eq!(encode_bool_result(false), vec![0u8]);
}

#[test]
fn bool_result_reads_only_the_single_byte_one_as_success() {
    assert!(decode_bool_result(&[1]));
    assert!(!decode_bool_result(&[0]));
    assert!(!decode_bool_result(&[]));
    assert!(!decode_bool_result(&[2]));
    assert!(!decode_bool_result(&[1, 1]));
    assert!(!decode_bool_result(&[0, 1]));
    assert!(decode_bool_result(&encode_bool_result(true)));
    assert!(!decode_bool_result(&encode_bool_result(false)));
}

#[test]
fn close_reason_with_header_and_trailing_one_reads_true() {
    let reason = [0x03, 0xE8, 0x64, 0x6F, 0x6E, 0x65, 0x01];
    assert!(decode_close_reason(&reason));
}

#[test]
fn close_reason_reads_its_last_byte_only() {
    assert!(decode_close_reason(&[1]));
    assert!(!decode_close_reason(&[0]));
    assert!(!decode_close_reason(&[1, 0]));
    assert!(decode_close_reason(&[0, 0, 0, 1]));
    assert!(!decode_close_reason(&[0x03, 0xE8, 0x64, 0x6F, 0x6E, 0x65]));
    assert!(!decode_close_reason(&[0x03, 0xE8, 0x00]));
    assert!(!decode_close_reason(&[0x03, 0xE8]));
}

#[test]
fn close_reason_without_bytes_reads_false() {
    assert!(!decode_close_reason(&[]));
}

#[test]
fn close_reason_carries_any_outcome_behind_any_header() {
    for flag in [true, false] {
        for header in [vec![], vec![0x03, 0xE8], vec![1, 1, 1], b"done".to_vec()] {
            let mut reason = header.clone();
            reason.extend_from_slice(&encode_bool_result(flag));
            assert_eq!(decode_close_reason(&reason), flag);
        }
    }
}

#[test]
fn byte_helpers_append_copy_and_compare() {
    let mut out = vec![1u8, 2];
    append_bytes(&mut out, &[3, 4, 5]);
    assert_eq!(out, vec![1, 2, 3, 4, 5]);
    append_bytes(&mut out, &[]);
    assert_eq!(out, vec![1, 2, 3, 4, 5]);
    assert_eq!(copy_bytes(&out), out);
    assert!(same_bytes(&[], &[]));
    assert!(same_bytes(&[1, 2, 3], &[1, 2, 3]));
    assert!(!same_bytes(&[1, 2, 3], &[1, 2, 4]));
    assert!(!same_bytes(&[1, 2, 3], &[1, 2]));
    assert!(!same_bytes(&[], &[0]));
}
