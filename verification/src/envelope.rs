//! The envelope that opens every flow, and the one-byte outcome that ends it.
//!
//! An envelope carries two opaque byte fields, the username and a protocol
//! message. Each field is written as its length, a little-endian `u64`,
//! followed by its bytes; the username comes first. A reader takes the two
//! fields from the front of its input and ignores whatever follows them.

use crate::bytes::append_bytes;
use vstd::bytes::{
    lemma_auto_spec_u64_to_from_le_bytes, spec_u64_from_le_bytes, spec_u64_to_le_bytes,
    u64_from_le_bytes, u64_to_le_bytes,
};
use vstd::prelude::*;
use vstd::slice::slice_subrange;

verus! {

/// The number of bytes that hold a field's length.
pub const LENGTH_PREFIX: usize = 8;

/// A username paired with an opaque protocol message.
#[derive(Debug)]
pub struct WithUsername<'a> {
    pub username: &'a [u8],
    pub data: &'a [u8],
}

/// The input does not start with two length-delimited fields.
#[derive(Debug, Clone, Copy, PartialEq, Eq, Structural)]
pub struct MalformedEnvelope;

/// One field on the wire: its length, then its bytes.
pub open spec fn field_bytes(field: Seq<u8>) -> Seq<u8> {
    spec_u64_to_le_bytes(field.len() as u64) + field
}

/// The wire form of an envelope.
pub open spec fn envelope_bytes(username: Seq<u8>, data: Seq<u8>) -> Seq<u8> {
    field_bytes(username) + field_bytes(data)
}

/// The field at the front of `bytes` and what follows it, or `None` where
/// the length prefix is cut short or announces more than is left.
pub open spec fn take_field(bytes: Seq<u8>) -> Option<(Seq<u8>, Seq<u8>)> {
    if bytes.len() < 8 {
        None
    } else {
        let announced = spec_u64_from_le_bytes(bytes.subrange(0, 8)) as int;
        if announced > bytes.len() - 8 {
            None
        } else {
            Some(
                (
                    bytes.subrange(8, 8 + announced),
                    bytes.subrange(8 + announced, bytes.len() as int),
                ),
            )
        }
    }
}

/// The username and message at the front of `bytes`, if both are there.
pub open spec fn envelope_fields(bytes: Seq<u8>) -> Option<(Seq<u8>, Seq<u8>)> {
    match take_field(bytes) {
        None => None,
        Some((username, rest)) => match take_field(rest) {
            None => None,
            Some((data, _)) => Some((username, data)),
        },
    }
}

/// The byte that stands for an outcome: `1` for success, `0` for failure.
pub open spec fn outcome_byte(flag: bool) -> u8 {
    if flag {
        1u8
    } else {
        0u8
    }
}

/// Whether a confirmation message says "success": it is the single byte `1`.
pub open spec fn confirms(message: Seq<u8>) -> bool {
    message == seq![1u8]
}

/// The outcome that a close reason carries: its last byte is `1`.
pub open spec fn close_outcome(reason: Seq<u8>) -> bool {
    reason.len() > 0 && reason[reason.len() - 1] == 1u8
}

/// Appends one length-delimited field to `out`.
fn put_field(out: &mut Vec<u8>, field: &[u8])
    ensures
        final(out)@ == old(out)@ + field_bytes(field@),
{
    let prefix = u64_to_le_bytes(field.len() as u64);
    append_bytes(out, prefix.as_slice());
    append_bytes(out, field);
}

/// Splits the field at the front of `bytes` from the rest.
fn get_field<'a>(bytes: &'a [u8]) -> (r: Option<(&'a [u8], &'a [u8])>)
    ensures
        match take_field(bytes@) {
            Some((field, rest)) => r matches Some(got) && got.0@ == field && got.1@ == rest,
            None => r is None,
        },
{
    let len: usize = bytes.len();
    if len < LENGTH_PREFIX {
        return None;
    }
    let announced: u64 = u64_from_le_bytes(slice_subrange(bytes, 0, LENGTH_PREFIX));
    if announced > (len - LENGTH_PREFIX) as u64 {
        return None;
    }
    let end: usize = LENGTH_PREFIX + announced as usize;
    Some((slice_subrange(bytes, LENGTH_PREFIX, end), slice_subrange(bytes, end, len)))
}

impl<'a> WithUsername<'a> {
    /// Pairs a username with a message.
    pub fn new(username: &'a [u8], data: &'a [u8]) -> (envelope: Self)
        ensures
            envelope.username@ == username@,
            envelope.data@ == data@,
    {
        WithUsername { username, data }
    }

    /// The envelope's wire form. A reader takes the same two fields from
    /// it.
    pub fn encode(&self) -> (out: Vec<u8>)
        ensures
            out@ == envelope_bytes(self.username@, self.data@),
            envelope_fields(out@) == Some((self.username@, self.data@)),
    {
        let mut out: Vec<u8> = Vec::new();
        put_field(&mut out, self.username);
        put_field(&mut out, self.data);
        proof {
            vstd::slice::axiom_spec_len(self.username);
            vstd::slice::axiom_spec_len(self.data);
            lemma_envelope_round_trip(self.username@, self.data@, Seq::empty());
            assert(out@ + Seq::<u8>::empty() == out@);
        }
        out
    }

    /// Reads an envelope from the front of `bytes`; bytes after the second
    /// field are ignored. Fails exactly where one of the two length
    /// prefixes is cut short or announces more bytes than are left.
    pub fn decode(bytes: &'a [u8]) -> (r: Result<WithUsername<'a>, MalformedEnvelope>)
        ensures
            match envelope_fields(bytes@) {
                Some((username, data)) => r matches Ok(envelope) && envelope.username@ == username
                    && envelope.data@ == data,
                None => r == Err::<WithUsername<'a>, MalformedEnvelope>(MalformedEnvelope),
            },
    {
        match get_field(bytes) {
            None => Err(MalformedEnvelope),
            Some((username, rest)) => match get_field(rest) {
                None => Err(MalformedEnvelope),
                Some((data, _)) => Ok(WithUsername { username, data }),
            },
        }
    }
}

/// The one-byte message that reports an outcome.
pub fn encode_bool_result(flag: bool) -> (out: Vec<u8>)
    ensures
        out@ == seq![outcome_byte(flag)],
{
    let mut out: Vec<u8> = Vec::new();
    out.push(if flag { 1u8 } else { 0u8 });
    out
}

/// Whether a confirmation message reports success.
pub fn decode_bool_result(message: &[u8]) -> (flag: bool)
    ensures
        flag == confirms(message@),
{
    let flag = message.len() == 1 && message[0] == 1u8;
    assert(flag == (message@ == seq![1u8])) by {
        if flag {
            assert(message@ =~= seq![1u8]);
        }
    }
    flag
}

/// The outcome carried by a close reason: whether its last byte is `1`.
/// Everything before the last byte is ignored; an empty reason carries no
/// success.
pub fn decode_close_reason(reason: &[u8]) -> (flag: bool)
    ensures
        flag == close_outcome(reason@),
{
    let len: usize = reason.len();
    len > 0 && reason[len - 1] == 1u8
}

/// A length-delimited field is read back from the front of any input that
/// starts with it.
pub proof fn lemma_take_field(field: Seq<u8>, rest: Seq<u8>)
    requires
        field.len() <= u64::MAX,
    ensures
        take_field(field_bytes(field) + rest) == Some((field, rest)),
{
    lemma_auto_spec_u64_to_from_le_bytes();
    let prefix = spec_u64_to_le_bytes(field.len() as u64);
    let bytes = field_bytes(field) + rest;
    assert(bytes.subrange(0, 8) == prefix);
}

/// Decoding undoes encoding, whatever follows the envelope.
pub proof fn lemma_envelope_round_trip(username: Seq<u8>, data: Seq<u8>, trailing: Seq<u8>)
    requires
        username.len() <= u64::MAX,
        data.len() <= u64::MAX,
    ensures
        envelope_fields(envelope_bytes(username, data) + trailing) == Some((username, data)),
{
    let after = field_bytes(data) + trailing;
    assert(envelope_bytes(username, data) + trailing == field_bytes(username) + after);
    lemma_take_field(username, after);
    lemma_take_field(data, trailing);
}

/// What decodes starts with the wire form of what it decodes to.
pub proof fn lemma_envelope_prefix(bytes: Seq<u8>)
    requires
        envelope_fields(bytes) is Some,
    ensures
        ({
            let (username, data) = envelope_fields(bytes)->Some_0;
            let wire = envelope_bytes(username, data);
            wire.len() <= bytes.len() && bytes.subrange(0, wire.len() as int) == wire
        }),
{
    lemma_auto_spec_u64_to_from_le_bytes();
}

/// The outcome byte is read back from a confirmation message.
pub proof fn lemma_confirmation_round_trip(flag: bool)
    ensures
        confirms(seq![outcome_byte(flag)]) == flag,
{
    if !flag {
        assert(seq![0u8][0] != seq![1u8][0]);
    }
}

/// A close reason that ends with the outcome byte carries that outcome,
/// whatever header or text stands before it.
pub proof fn lemma_close_reason_round_trip(header: Seq<u8>, flag: bool)
    ensures
        close_outcome(header + seq![outcome_byte(flag)]) == flag,
{
}

} // verus!
