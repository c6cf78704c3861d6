//! The tagged message layer.
//!
//! Messages are built, encoded and decoded by the `roughenough` crate, which
//! also walks the Merkle path. This module declares the crate's types and
//! states, function by function, what the rest of the library relies on.
//! These contracts are taken on trust: they say what the crate's source
//! shows, and nothing proves them.

use vstd::prelude::*;

use crate::tag::FieldTag;

verus! {

/// `roughenough::RtMessage`: an ordered list of tagged byte strings.
#[verifier::external_type_specification]
#[verifier::external_body]
pub struct ExRtMessage(roughenough::RtMessage);

/// `roughenough::Error`: why the message layer refused something.
#[verifier::external_type_specification]
#[verifier::external_body]
pub struct ExError(roughenough::Error);

/// The fields of a message in the order in which they were added, each as
/// the code of its tag and its value. The code of a tag is its four bytes on
/// the wire, read as a little-endian number.
pub uninterp spec fn message_fields(msg: roughenough::RtMessage) -> Seq<(u32, Seq<u8>)>;

/// The bytes that `RtMessage::encode` gives for a message with these fields.
pub uninterp spec fn wire_encoding(fields: Seq<(u32, Seq<u8>)>) -> Seq<u8>;

/// The fields of the message that `RtMessage::from_bytes` reads from these
/// bytes, or `None` where it refuses them.
pub uninterp spec fn parsed_fields(bytes: Seq<u8>) -> Option<Seq<(u32, Seq<u8>)>>;

/// The root that `MerkleTree::root_from_paths` of the SHA-512 tree derives
/// for a leaf, its index and the digests of its siblings.
pub uninterp spec fn merkle_root(index: u32, leaf: Seq<u8>, path: Seq<u8>) -> Seq<u8>;

/// Width in bytes of a digest of the tree.
pub const DIGEST_LEN: usize = 64;

/// Length below which the message layer pads a request.
pub const MIN_REQUEST_LEN: usize = 1024;

/// Whether `code` is the code of one of the tags of `FieldTag`.
pub open spec fn is_tag_code(code: u32) -> bool {
    ||| code == FieldTag::Nonce.spec_code()
    ||| code == FieldTag::Path.spec_code()
    ||| code == FieldTag::Radius.spec_code()
    ||| code == FieldTag::Midpoint.spec_code()
    ||| code == FieldTag::SignedResponse.spec_code()
    ||| code == FieldTag::Root.spec_code()
    ||| code == FieldTag::Index.spec_code()
    ||| code == FieldTag::Pad.spec_code()
}

/// The value of the first field that carries `code`.
pub open spec fn field_value(fields: Seq<(u32, Seq<u8>)>, code: u32) -> Option<Seq<u8>>
    decreases fields.len(),
{
    if fields.len() == 0 {
        None
    } else if fields[0].0 == code {
        Some(fields[0].1)
    } else {
        field_value(fields.drop_first(), code)
    }
}

/// Sum of the lengths of all values.
pub open spec fn values_len(fields: Seq<(u32, Seq<u8>)>) -> nat
    decreases fields.len(),
{
    if fields.len() == 0 {
        0
    } else {
        values_len(fields.drop_last()) + fields.last().1.len()
    }
}

/// Length of the encoding: the field count, one offset for each field but
/// the first, the tags, the values.
pub open spec fn encoded_size(fields: Seq<(u32, Seq<u8>)>) -> int {
    let n = fields.len() as int;
    4 + 4 * n + (if n < 2 { 0 } else { 4 * (n - 1) }) + values_len(fields)
}

/// What the encoding lacks to `MIN_REQUEST_LEN`: the length that the value
/// of an empty last field must get for the encoding to reach it. For a
/// message of one field, four bytes less: the offset that a second field
/// brings.
pub open spec fn padding_length(fields: Seq<(u32, Seq<u8>)>) -> int {
    let size = encoded_size(fields);
    if size >= MIN_REQUEST_LEN {
        0
    } else if fields.len() == 1 {
        MIN_REQUEST_LEN - size - 4
    } else {
        MIN_REQUEST_LEN - size
    }
}

/// Greatest number of fields that the message layer reads from a message.
pub const MAX_FIELDS: u32 = 1024;

/// `RtMessage::with_capacity`: a message without fields. Room for that many
/// fields is taken at once, so a number that no message reaches is left
/// out.
#[verifier::external_body]
pub(crate) fn message_with_capacity(num_fields: u32) -> (msg: roughenough::RtMessage)
    requires
        num_fields <= MAX_FIELDS,
    ensures
        message_fields(msg) == Seq::<(u32, Seq<u8>)>::empty(),
{
    roughenough::RtMessage::with_capacity(num_fields)
}

/// `RtMessage::add_field`: appends the field if the message is empty or its
/// last tag is smaller, and refuses it otherwise, leaving the message as it
/// was. The crate orders its tags as their codes are ordered, and knows the
/// tag of every code of `is_tag_code`.
#[verifier::external_body]
pub(crate) fn message_add_field(msg: &mut roughenough::RtMessage, code: u32, value: &[u8]) -> (r:
    Result<(), roughenough::Error>)
    requires
        is_tag_code(code),
    ensures
        r is Ok <==> (message_fields(*old(msg)).len() == 0 || message_fields(*old(msg)).last().0
            < code),
        r is Ok ==> message_fields(*final(msg)) == message_fields(*old(msg)).push((code, value@)),
        r is Err ==> message_fields(*final(msg)) == message_fields(*old(msg)),
{
    let tag = roughenough::Tag::from_wire(&code.to_le_bytes())?;
    msg.add_field(tag, value)
}

/// `RtMessage::get_field`: the value of the first field with this tag.
#[verifier::external_body]
pub(crate) fn message_get_field<'a>(msg: &'a roughenough::RtMessage, code: u32) -> (r: Option<
    &'a [u8],
>)
    requires
        is_tag_code(code),
    ensures
        r matches Some(v) ==> field_value(message_fields(*msg), code) == Some(v@),
        r is None ==> field_value(message_fields(*msg), code) is None,
{
    match roughenough::Tag::from_wire(&code.to_le_bytes()) {
        Ok(tag) => msg.get_field(tag),
        Err(_) => None,
    }
}

/// `RtMessage::clear`: removes every field.
#[verifier::external_body]
pub(crate) fn message_clear(msg: &mut roughenough::RtMessage)
    ensures
        message_fields(*final(msg)) == Seq::<(u32, Seq<u8>)>::empty(),
{
    msg.clear()
}

/// `RtMessage::calculate_padding_length`: see `padding_length`. The message
/// is not changed. Left out is the message of one field whose encoding is one
/// to three bytes short of `MIN_REQUEST_LEN`: there the crate subtracts below
/// zero.
#[verifier::external_body]
pub(crate) fn message_padding_length(msg: &mut roughenough::RtMessage) -> (len: usize)
    requires
        padding_length(message_fields(*old(msg))) >= 0,
    ensures
        len == padding_length(message_fields(*old(msg))),
        message_fields(*final(msg)) == message_fields(*old(msg)),
{
    msg.calculate_padding_length()
}

/// `RtMessage::encode`: the encoding of the fields, which depends on nothing
/// else and has the length that `encoded_size` gives. It is written to a
/// vector, which takes every write, so the call does not fail.
#[verifier::external_body]
pub(crate) fn message_encode(msg: &roughenough::RtMessage) -> (r: Result<Vec<u8>, roughenough::Error>)
    ensures
        r is Ok,
        r matches Ok(bytes) ==> bytes@ == wire_encoding(message_fields(*msg)),
        r matches Ok(bytes) ==> bytes@.len() == encoded_size(message_fields(*msg)),
{
    msg.encode()
}

/// `RtMessage::from_bytes`: whether the bytes are accepted, and the fields
/// of the message if they are, depend on the bytes alone.
#[verifier::external_body]
pub(crate) fn message_from_bytes(bytes: &[u8]) -> (r: Result<roughenough::RtMessage, roughenough::Error>)
    ensures
        r matches Ok(msg) ==> parsed_fields(bytes@) == Some(message_fields(msg)),
        r is Err ==> parsed_fields(bytes@) is None,
{
    roughenough::RtMessage::from_bytes(bytes)
}

/// `MerkleTree::root_from_paths` on `MerkleTree::new_sha512()`: the root
/// depends on the three arguments alone. The crate stops on a path that is
/// not a whole number of digests.
#[verifier::external_body]
pub(crate) fn merkle_root_from_paths(index: u32, leaf: &[u8], path: &[u8]) -> (root: Vec<u8>)
    requires
        path@.len() % (DIGEST_LEN as nat) == 0,
    ensures
        root@ == merkle_root(index, leaf@, path@),
{
    roughenough::merkle::MerkleTree::new_sha512().root_from_paths(index as usize, leaf, path)
}

} // verus!
