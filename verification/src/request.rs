//! The request: a nonce field and the padding that brings the packet to the
//! length below which beacons do not answer.

use vstd::prelude::*;
use vstd::slice::slice_to_vec;

use crate::error::{wrap_err, TimestampError};
use crate::tag::FieldTag;
use crate::wire::{
    encoded_size, message_add_field, message_clear, message_encode, message_fields,
    message_padding_length, message_with_capacity, padding_length, values_len, wire_encoding,
    MIN_REQUEST_LEN,
};

verus! {

/// Length in bytes of the value that a query is about.
pub const HASH_LEN: usize = 32;

/// Length in bytes of the nonce field.
pub const NONCE_LEN: usize = 64;

/// `n` zero bytes.
pub open spec fn zeros(n: nat) -> Seq<u8> {
    Seq::new(n, |i: int| 0u8)
}

/// The nonce that stands for a hash: the hash, then zeros up to `NONCE_LEN`.
pub open spec fn padded_nonce(hash: Seq<u8>) -> Seq<u8> {
    hash + zeros((NONCE_LEN - hash.len()) as nat)
}

/// Length of the padding field in the request for a nonce of `nonce_len`
/// bytes. Count, offset and the two tags take 16 bytes.
pub open spec fn request_padding(nonce_len: nat) -> nat {
    if 16 + nonce_len >= MIN_REQUEST_LEN {
        0
    } else {
        (MIN_REQUEST_LEN - 16 - nonce_len) as nat
    }
}

/// The two fields of the request for a nonce.
pub open spec fn request_fields(nonce: Seq<u8>) -> Seq<(u32, Seq<u8>)> {
    seq![
        (FieldTag::Nonce.spec_code(), nonce),
        (FieldTag::Pad.spec_code(), zeros(request_padding(nonce.len()))),
    ]
}

/// The packet that asks a beacon to sign `nonce`.
pub open spec fn request_wire(nonce: Seq<u8>) -> Seq<u8> {
    wire_encoding(request_fields(nonce))
}

/// Length of the request for a nonce of `nonce_len` bytes.
pub open spec fn request_len(nonce_len: nat) -> nat {
    16 + nonce_len + request_padding(nonce_len)
}

/// Zero-extends a hash to the width of the nonce field.
pub fn pad_nonce(hash: [u8; 32]) -> (nonce: Vec<u8>)
    ensures
        nonce@ == padded_nonce(hash@),
        nonce@.len() == NONCE_LEN,
{
    extend_to_nonce(hash.as_slice())
}

/// The nonce for a hash that came as a byte string of any length: there is
/// one only if the string has the length of a hash.
pub fn nonce_from_hash(bytes: &[u8]) -> (r: Option<Vec<u8>>)
    ensures
        r is Some <==> bytes@.len() == HASH_LEN,
        r matches Some(nonce) ==> nonce@ == padded_nonce(bytes@),
{
    if bytes.len() == HASH_LEN {
        Some(extend_to_nonce(bytes))
    } else {
        None
    }
}

/// Copies the bytes and adds zeros up to the width of the nonce field.
fn extend_to_nonce(bytes: &[u8]) -> (nonce: Vec<u8>)
    requires
        bytes@.len() <= NONCE_LEN,
    ensures
        nonce@ == padded_nonce(bytes@),
        nonce@.len() == NONCE_LEN,
{
    let mut nonce = slice_to_vec(bytes);
    nonce.resize(NONCE_LEN, 0u8);
    nonce
}

/// Builds the request for a nonce.
///
/// The packet is a function of the nonce alone, so two calls on one nonce
/// give the same bytes. It never falls short of `MIN_REQUEST_LEN`, and for
/// every nonce of up to 1008 bytes it has exactly that length.
pub fn build_packet(nonce: &[u8]) -> (r: Result<Vec<u8>, TimestampError>)
    ensures
        r is Ok,
        r matches Ok(packet) ==> packet@ == request_wire(nonce@),
        r matches Ok(packet) ==> packet@.len() == request_len(nonce@.len()),
        r matches Ok(packet) ==> packet@.len() >= MIN_REQUEST_LEN,
{
    let mut req = message_with_capacity(2);
    match message_add_field(&mut req, FieldTag::Nonce.code(), nonce) {
        Ok(()) => {},
        Err(e) => {
            return Err(wrap_err(e));
        },
    }
    let empty: Vec<u8> = Vec::new();
    match message_add_field(&mut req, FieldTag::Pad.code(), empty.as_slice()) {
        Ok(()) => {},
        Err(e) => {
            return Err(wrap_err(e));
        },
    }
    proof {
        let probe = message_fields(req);
        assert(probe == seq![
            (FieldTag::Nonce.spec_code(), nonce@),
            (FieldTag::Pad.spec_code(), empty@),
        ]);
        lemma_values_len_pair(probe);
        assert(padding_length(probe) == request_padding(nonce@.len()));
    }
    let pad_len: usize = message_padding_length(&mut req);
    let pad = vec![0u8; pad_len];
    assert(pad@ == zeros(pad_len as nat));
    message_clear(&mut req);
    match message_add_field(&mut req, FieldTag::Nonce.code(), nonce) {
        Ok(()) => {},
        Err(e) => {
            return Err(wrap_err(e));
        },
    }
    match message_add_field(&mut req, FieldTag::Pad.code(), pad.as_slice()) {
        Ok(()) => {},
        Err(e) => {
            return Err(wrap_err(e));
        },
    }
    proof {
        assert(message_fields(req) == request_fields(nonce@));
        lemma_values_len_pair(request_fields(nonce@));
    }
    match message_encode(&req) {
        Ok(packet) => Ok(packet),
        Err(e) => Err(wrap_err(e)),
    }
}

/// The values of a message of two fields are as long as the two together.
proof fn lemma_values_len_pair(fields: Seq<(u32, Seq<u8>)>)
    requires
        fields.len() == 2,
    ensures
        values_len(fields) == fields[0].1.len() + fields[1].1.len(),
{
    reveal_with_fuel(values_len, 3);
}

} // verus!
