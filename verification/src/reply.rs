//! The reply: what a beacon claims, and whether its proof holds.
//!
//! A reply carries a leaf index and the digests of the leaf's siblings on the
//! way to the root. Inside it sits the signed response with the root, the
//! time and its radius. The reply is accepted only if walking from the nonce
//! along the path yields that root.

use vstd::prelude::*;
use vstd::slice::slice_to_vec;

use crate::bytes::{digest_eq, le_u32, le_u64, le_value, lemma_le_value_bound};
use crate::error::{wrap_err, ProtocolFault, TimestampError};
use crate::tag::FieldTag;
use crate::wire::{
    field_value, merkle_root, merkle_root_from_paths, message_from_bytes, message_get_field,
    parsed_fields, DIGEST_LEN,
};

verus! {

/// Time and radius that a beacon signed, taken from a reply whose proof held.
#[derive(Debug, Clone, Copy, PartialEq, Eq, Structural)]
pub struct VerifiedReply {
    /// The beacon's time when it answered, in microseconds since the epoch.
    pub midpoint_us: u64,
    /// The beacon's own bound on the error of `midpoint_us`, in microseconds.
    pub radius_us: u32,
}

/// Proof that a leaf lies under a root: the leaf's index, the digests of its
/// siblings from the leaf upwards, one after the other, and the root.
#[derive(Debug, Clone, PartialEq, Eq)]
pub struct MerkleProof {
    pub leaf_index: u32,
    pub path: Vec<u8>,
    pub claimed_root: Vec<u8>,
}

/// What a reply claims, with every field of the right length.
#[derive(Debug, Clone, PartialEq, Eq)]
pub struct ReplyClaims {
    pub proof: MerkleProof,
    pub midpoint_us: u64,
    pub radius_us: u32,
}

/// The values of the five fields that a reply must carry, each as it was
/// found, if it was found.
#[derive(Debug, Clone, Copy)]
pub struct ReplyFields<'a> {
    pub index: Option<&'a [u8]>,
    pub path: Option<&'a [u8]>,
    pub root: Option<&'a [u8]>,
    pub midpoint: Option<&'a [u8]>,
    pub radius: Option<&'a [u8]>,
}

/// `ReplyFields` as plain byte sequences.
pub struct FoundFields {
    pub index: Option<Seq<u8>>,
    pub path: Option<Seq<u8>>,
    pub root: Option<Seq<u8>>,
    pub midpoint: Option<Seq<u8>>,
    pub radius: Option<Seq<u8>>,
}

/// The bytes of a value that may be absent.
pub open spec fn bytes_of(value: Option<&[u8]>) -> Option<Seq<u8>> {
    match value {
        Some(v) => Some(v@),
        None => None,
    }
}

impl<'a> View for ReplyFields<'a> {
    type V = FoundFields;

    open spec fn view(&self) -> FoundFields {
        FoundFields {
            index: bytes_of(self.index),
            path: bytes_of(self.path),
            root: bytes_of(self.root),
            midpoint: bytes_of(self.midpoint),
            radius: bytes_of(self.radius),
        }
    }
}

/// Whether a value of `len` bytes can be the value of `tag`. The index and
/// the radius take four bytes, the midpoint eight, the root one digest, the
/// path any number of digests.
pub open spec fn length_fits(tag: FieldTag, len: nat) -> bool {
    match tag {
        FieldTag::Index => len == 4,
        FieldTag::Radius => len == 4,
        FieldTag::Midpoint => len == 8,
        FieldTag::Root => len == DIGEST_LEN,
        FieldTag::Path => len % (DIGEST_LEN as nat) == 0,
        _ => true,
    }
}

/// What is wrong with one field, if anything.
pub open spec fn field_fault(value: Option<Seq<u8>>, tag: FieldTag) -> Option<ProtocolFault> {
    match value {
        None => Some(ProtocolFault::Missing(tag)),
        Some(v) => if length_fits(tag, v.len()) {
            None
        } else {
            Some(ProtocolFault::Malformed(tag))
        },
    }
}

/// The first fault among the fields, taken in the order index, path, root,
/// midpoint, radius.
pub open spec fn first_fault(found: FoundFields) -> Option<ProtocolFault> {
    if field_fault(found.index, FieldTag::Index) is Some {
        field_fault(found.index, FieldTag::Index)
    } else if field_fault(found.path, FieldTag::Path) is Some {
        field_fault(found.path, FieldTag::Path)
    } else if field_fault(found.root, FieldTag::Root) is Some {
        field_fault(found.root, FieldTag::Root)
    } else if field_fault(found.midpoint, FieldTag::Midpoint) is Some {
        field_fault(found.midpoint, FieldTag::Midpoint)
    } else {
        field_fault(found.radius, FieldTag::Radius)
    }
}

/// The verdict on fields without fault: the signed time if the path leads
/// from the leaf to the claimed root, and a verification error if not.
pub open spec fn proof_verdict(leaf: Seq<u8>, found: FoundFields) -> Result<
    VerifiedReply,
    TimestampError,
> {
    if merkle_root(le_value(found.index->0) as u32, leaf, found.path->0) == found.root->0 {
        Ok(
            VerifiedReply {
                midpoint_us: le_value(found.midpoint->0) as u64,
                radius_us: le_value(found.radius->0) as u32,
            },
        )
    } else {
        Err(TimestampError::Verification)
    }
}

/// The verdict on the fields of a reply to a request for `leaf`.
pub open spec fn fields_verdict(leaf: Seq<u8>, found: FoundFields) -> Result<
    VerifiedReply,
    TimestampError,
> {
    match first_fault(found) {
        Some(fault) => Err(TimestampError::Protocol(fault)),
        None => proof_verdict(leaf, found),
    }
}

/// The five fields as a reply and the signed response inside it hold them.
pub open spec fn found_fields(outer: Seq<(u32, Seq<u8>)>, signed: Seq<(u32, Seq<u8>)>) -> FoundFields {
    FoundFields {
        index: field_value(outer, FieldTag::Index.spec_code()),
        path: field_value(outer, FieldTag::Path.spec_code()),
        root: field_value(signed, FieldTag::Root.spec_code()),
        midpoint: field_value(signed, FieldTag::Midpoint.spec_code()),
        radius: field_value(signed, FieldTag::Radius.spec_code()),
    }
}

/// The verdict on the bytes of a reply to a request for `leaf`.
///
/// The bytes must decode, hold a signed response, and that must decode too.
/// After that the five fields decide.
pub open spec fn reply_verdict(leaf: Seq<u8>, reply: Seq<u8>) -> Result<
    VerifiedReply,
    TimestampError,
> {
    match parsed_fields(reply) {
        None => Err(TimestampError::Protocol(ProtocolFault::Undecodable)),
        Some(outer) => match field_value(outer, FieldTag::SignedResponse.spec_code()) {
            None => Err(TimestampError::Protocol(ProtocolFault::Missing(FieldTag::SignedResponse))),
            Some(signed_bytes) => match parsed_fields(signed_bytes) {
                None => Err(
                    TimestampError::Protocol(ProtocolFault::Malformed(FieldTag::SignedResponse)),
                ),
                Some(signed) => fields_verdict(leaf, found_fields(outer, signed)),
            },
        },
    }
}

/// Checks that a field is there and has a length that fits its tag.
pub fn check_field<'a>(value: Option<&'a [u8]>, tag: FieldTag) -> (r: Result<&'a [u8], ProtocolFault>)
    ensures
        r matches Ok(v) ==> value == Some(v) && field_fault(bytes_of(value), tag) is None,
        r matches Err(fault) ==> field_fault(bytes_of(value), tag) == Some(fault),
{
    match value {
        None => Err(ProtocolFault::Missing(tag)),
        Some(v) => {
            let fits = match tag {
                FieldTag::Index => v.len() == 4,
                FieldTag::Radius => v.len() == 4,
                FieldTag::Midpoint => v.len() == 8,
                FieldTag::Root => v.len() == DIGEST_LEN,
                FieldTag::Path => v.len() % DIGEST_LEN == 0,
                _ => true,
            };
            if fits {
                Ok(v)
            } else {
                Err(ProtocolFault::Malformed(tag))
            }
        },
    }
}

impl MerkleProof {
    /// The path is a whole number of digests and the root is one digest.
    pub open spec fn wf(&self) -> bool {
        &&& self.path@.len() % (DIGEST_LEN as nat) == 0
        &&& self.claimed_root@.len() == DIGEST_LEN
    }

    /// The proof is valid for `leaf`: the root recomputed from the leaf, its
    /// index and the path is the claimed root.
    pub open spec fn proves(&self, leaf: Seq<u8>) -> bool {
        merkle_root(self.leaf_index, leaf, self.path@) == self.claimed_root@
    }

    /// Whether the proof is well formed.
    pub fn check_wf(&self) -> (ok: bool)
        ensures
            ok == self.wf(),
    {
        self.path.len() % DIGEST_LEN == 0 && self.claimed_root.len() == DIGEST_LEN
    }

    /// Recomputes the root from `leaf` and compares it with the claimed one.
    pub fn verify(&self, leaf: &[u8]) -> (ok: bool)
        requires
            self.wf(),
        ensures
            ok == self.proves(leaf@),
    {
        let root = merkle_root_from_paths(self.leaf_index, leaf, self.path.as_slice());
        digest_eq(root.as_slice(), self.claimed_root.as_slice())
    }
}

impl ReplyClaims {
    /// The claims are those of the fields in `found`.
    pub open spec fn taken_from(&self, found: FoundFields) -> bool {
        &&& first_fault(found) is None
        &&& self.proof.leaf_index == le_value(found.index->0)
        &&& self.proof.path@ == found.path->0
        &&& self.proof.claimed_root@ == found.root->0
        &&& self.midpoint_us == le_value(found.midpoint->0)
        &&& self.radius_us == le_value(found.radius->0)
    }

    /// Accepts the claimed time if `computed_root`, the root that the path
    /// leads to, is the claimed root, and refuses it if not.
    pub fn settle(&self, computed_root: &[u8]) -> (r: Result<VerifiedReply, TimestampError>)
        ensures
            computed_root@ == self.proof.claimed_root@ ==> r == Ok::<VerifiedReply, TimestampError>(
                VerifiedReply { midpoint_us: self.midpoint_us, radius_us: self.radius_us },
            ),
            computed_root@ != self.proof.claimed_root@ ==> r == Err::<VerifiedReply, TimestampError>(
                TimestampError::Verification,
            ),
    {
        if digest_eq(computed_root, self.proof.claimed_root.as_slice()) {
            Ok(VerifiedReply { midpoint_us: self.midpoint_us, radius_us: self.radius_us })
        } else {
            Err(TimestampError::Verification)
        }
    }
}

impl<'a> ReplyFields<'a> {
    /// Checks that all five fields are there and of the right length, and
    /// reads the numbers. The first fault found is reported.
    pub fn claims(&self) -> (r: Result<ReplyClaims, ProtocolFault>)
        ensures
            r matches Ok(c) ==> c.taken_from(self@) && c.proof.wf(),
            r matches Err(fault) ==> first_fault(self@) == Some(fault),
    {
        let index = match check_field(self.index, FieldTag::Index) {
            Ok(v) => v,
            Err(fault) => {
                return Err(fault);
            },
        };
        let path = match check_field(self.path, FieldTag::Path) {
            Ok(v) => v,
            Err(fault) => {
                return Err(fault);
            },
        };
        let root = match check_field(self.root, FieldTag::Root) {
            Ok(v) => v,
            Err(fault) => {
                return Err(fault);
            },
        };
        let midpoint = match check_field(self.midpoint, FieldTag::Midpoint) {
            Ok(v) => v,
            Err(fault) => {
                return Err(fault);
            },
        };
        let radius = match check_field(self.radius, FieldTag::Radius) {
            Ok(v) => v,
            Err(fault) => {
                return Err(fault);
            },
        };
        Ok(
            ReplyClaims {
                proof: MerkleProof {
                    leaf_index: le_u32(index),
                    path: slice_to_vec(path),
                    claimed_root: slice_to_vec(root),
                },
                midpoint_us: le_u64(midpoint),
                radius_us: le_u32(radius),
            },
        )
    }
}

/// Verifies the reply to a request for `nonce`.
///
/// The time that the beacon signed is returned only if the reply decodes,
/// carries every field at its length, and its path leads from the nonce to
/// the root that the beacon signed. Every other reply is an error: a
/// protocol error where a field is missing or malformed, a verification
/// error where the proof does not hold.
pub fn verify_reply(nonce: &[u8], reply: &[u8]) -> (r: Result<VerifiedReply, TimestampError>)
    ensures
        r == reply_verdict(nonce@, reply@),
{
    let outer = match message_from_bytes(reply) {
        Ok(msg) => msg,
        Err(e) => {
            return Err(wrap_err(e));
        },
    };
    let signed_bytes = match message_get_field(&outer, FieldTag::SignedResponse.code()) {
        Some(v) => v,
        None => {
            return Err(TimestampError::Protocol(ProtocolFault::Missing(FieldTag::SignedResponse)));
        },
    };
    let signed = match message_from_bytes(signed_bytes) {
        Ok(msg) => msg,
        Err(_) => {
            return Err(
                TimestampError::Protocol(ProtocolFault::Malformed(FieldTag::SignedResponse)),
            );
        },
    };
    let fields = ReplyFields {
        index: message_get_field(&outer, FieldTag::Index.code()),
        path: message_get_field(&outer, FieldTag::Path.code()),
        root: message_get_field(&signed, FieldTag::Root.code()),
        midpoint: message_get_field(&signed, FieldTag::Midpoint.code()),
        radius: message_get_field(&signed, FieldTag::Radius.code()),
    };
    let claims = match fields.claims() {
        Ok(c) => c,
        Err(fault) => {
            return Err(TimestampError::Protocol(fault));
        },
    };
    let computed = merkle_root_from_paths(claims.proof.leaf_index, nonce, claims.proof.path.as_slice());
    claims.settle(computed.as_slice())
}

/// A reply is accepted only with a valid proof, and then for exactly the
/// time and radius that its signed response holds: if the verdict on a reply
/// is a time, the reply decodes to fields without fault, the root recomputed
/// from the nonce is the root that was signed, and time and radius are the
/// numbers in the signed fields.
pub proof fn lemma_accepted_reply_is_proved(leaf: Seq<u8>, reply: Seq<u8>)
    requires
        reply_verdict(leaf, reply) is Ok,
    ensures
        parsed_fields(reply) is Some,
        field_value(parsed_fields(reply)->0, FieldTag::SignedResponse.spec_code()) is Some,
        parsed_fields(
            field_value(parsed_fields(reply)->0, FieldTag::SignedResponse.spec_code())->0,
        ) is Some,
        ({
            let outer = parsed_fields(reply)->0;
            let signed = parsed_fields(
                field_value(outer, FieldTag::SignedResponse.spec_code())->0,
            )->0;
            let found = found_fields(outer, signed);
            &&& first_fault(found) is None
            &&& merkle_root(le_value(found.index->0) as u32, leaf, found.path->0) == found.root->0
            &&& reply_verdict(leaf, reply)->Ok_0.midpoint_us == le_value(found.midpoint->0)
            &&& reply_verdict(leaf, reply)->Ok_0.radius_us == le_value(found.radius->0)
        }),
{
    let outer = parsed_fields(reply)->0;
    let signed = parsed_fields(field_value(outer, FieldTag::SignedResponse.spec_code())->0)->0;
    let found = found_fields(outer, signed);
    lemma_le_value_bound(found.midpoint->0);
    lemma_le_value_bound(found.radius->0);
}

/// A reply with a valid proof is accepted for exactly what it signed: if the
/// reply decodes to fields without fault and the root recomputed from the
/// nonce is the root that was signed, the verdict is the time and the radius
/// that the signed fields hold.
pub proof fn lemma_proved_reply_is_accepted(leaf: Seq<u8>, reply: Seq<u8>)
    requires
        parsed_fields(reply) is Some,
        field_value(parsed_fields(reply)->0, FieldTag::SignedResponse.spec_code()) is Some,
        parsed_fields(
            field_value(parsed_fields(reply)->0, FieldTag::SignedResponse.spec_code())->0,
        ) is Some,
        ({
            let outer = parsed_fields(reply)->0;
            let signed = parsed_fields(
                field_value(outer, FieldTag::SignedResponse.spec_code())->0,
            )->0;
            let found = found_fields(outer, signed);
            &&& first_fault(found) is None
            &&& merkle_root(le_value(found.index->0) as u32, leaf, found.path->0) == found.root->0
        }),
    ensures
        reply_verdict(leaf, reply) is Ok,
        ({
            let outer = parsed_fields(reply)->0;
            let signed = parsed_fields(
                field_value(outer, FieldTag::SignedResponse.spec_code())->0,
            )->0;
            let found = found_fields(outer, signed);
            &&& reply_verdict(leaf, reply)->Ok_0.midpoint_us == le_value(found.midpoint->0)
            &&& reply_verdict(leaf, reply)->Ok_0.radius_us == le_value(found.radius->0)
        }),
{
    let outer = parsed_fields(reply)->0;
    let signed = parsed_fields(field_value(outer, FieldTag::SignedResponse.spec_code())->0)->0;
    let found = found_fields(outer, signed);
    lemma_le_value_bound(found.midpoint->0);
    lemma_le_value_bound(found.radius->0);
}

/// A reply whose proof does not hold is refused, whatever else it holds: if
/// the reply decodes to fields without fault and the root recomputed from
/// the nonce is not the root that was signed, the verdict is a verification
/// error.
pub proof fn lemma_broken_proof_is_refused(leaf: Seq<u8>, reply: Seq<u8>)
    requires
        parsed_fields(reply) is Some,
        field_value(parsed_fields(reply)->0, FieldTag::SignedResponse.spec_code()) is Some,
        parsed_fields(
            field_value(parsed_fields(reply)->0, FieldTag::SignedResponse.spec_code())->0,
        ) is Some,
        ({
            let outer = parsed_fields(reply)->0;
            let signed = parsed_fields(
                field_value(outer, FieldTag::SignedResponse.spec_code())->0,
            )->0;
            let found = found_fields(outer, signed);
            &&& first_fault(found) is None
            &&& merkle_root(le_value(found.index->0) as u32, leaf, found.path->0) != found.root->0
        }),
    ensures
        reply_verdict(leaf, reply) == Err::<VerifiedReply, TimestampError>(
            TimestampError::Verification,
        ),
{
}

} // verus!
