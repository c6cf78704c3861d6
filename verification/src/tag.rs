//! The tags of the fields that a request and a reply are made of.

use vstd::prelude::*;

use crate::bytes::le_value;

verus! {

/// The fields that a request or a reply is made of.
#[derive(Debug, Clone, Copy, PartialEq, Eq, Structural)]
pub enum FieldTag {
    Nonce,
    Path,
    Radius,
    Midpoint,
    SignedResponse,
    Root,
    Index,
    Pad,
}

impl FieldTag {
    /// The four bytes that stand for the tag on the wire.
    pub open spec fn spec_wire(&self) -> Seq<u8> {
        match self {
            FieldTag::Nonce => seq!['N' as u8, 'O' as u8, 'N' as u8, 'C' as u8],
            FieldTag::Path => seq!['P' as u8, 'A' as u8, 'T' as u8, 'H' as u8],
            FieldTag::Radius => seq!['R' as u8, 'A' as u8, 'D' as u8, 'I' as u8],
            FieldTag::Midpoint => seq!['M' as u8, 'I' as u8, 'D' as u8, 'P' as u8],
            FieldTag::SignedResponse => seq!['S' as u8, 'R' as u8, 'E' as u8, 'P' as u8],
            FieldTag::Root => seq!['R' as u8, 'O' as u8, 'O' as u8, 'T' as u8],
            FieldTag::Index => seq!['I' as u8, 'N' as u8, 'D' as u8, 'X' as u8],
            FieldTag::Pad => seq!['P' as u8, 'A' as u8, 'D' as u8, 0xffu8],
        }
    }

    /// The bytes of `spec_wire` read as a little-endian number. Fields of a
    /// message are ordered by it.
    pub open spec fn spec_code(&self) -> u32 {
        match self {
            FieldTag::Nonce => 0x434e_4f4eu32,
            FieldTag::Path => 0x4854_4150u32,
            FieldTag::Radius => 0x4944_4152u32,
            FieldTag::Midpoint => 0x5044_494du32,
            FieldTag::SignedResponse => 0x5045_5253u32,
            FieldTag::Root => 0x544f_4f52u32,
            FieldTag::Index => 0x5844_4e49u32,
            FieldTag::Pad => 0xff44_4150u32,
        }
    }

    /// The code of the tag.
    #[verifier::when_used_as_spec(spec_code)]
    pub fn code(&self) -> (c: u32)
        ensures
            c == self.spec_code(),
    {
        match self {
            FieldTag::Nonce => 0x434e_4f4eu32,
            FieldTag::Path => 0x4854_4150u32,
            FieldTag::Radius => 0x4944_4152u32,
            FieldTag::Midpoint => 0x5044_494du32,
            FieldTag::SignedResponse => 0x5045_5253u32,
            FieldTag::Root => 0x544f_4f52u32,
            FieldTag::Index => 0x5844_4e49u32,
            FieldTag::Pad => 0xff44_4150u32,
        }
    }
}

/// The code of a tag is the number that its four bytes on the wire stand
/// for.
pub proof fn lemma_code_is_wire_value(tag: FieldTag)
    ensures
        tag.spec_wire().len() == 4,
        le_value(tag.spec_wire()) == tag.spec_code(),
{
    reveal_with_fuel(le_value, 5);
    let w = tag.spec_wire();
    let w1 = w.drop_first();
    let w2 = w1.drop_first();
    let w3 = w2.drop_first();
    assert(w1[0] == w[1] && w2[0] == w[2] && w3[0] == w[3]);
}

} // verus!
