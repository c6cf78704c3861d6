//! Latency-adjusted time from independent Roughtime beacons.
//!
//! A query asks each beacon to sign a nonce, verifies the inclusion proof of
//! each reply, turns each verified reply and its round trip into an offset of
//! the local clock with an error bound, and reduces the offsets to one
//! timestamp. This crate holds every step of that but the exchange of the
//! datagrams itself: it builds the request, judges the reply, estimates,
//! aggregates and decides on the quorum.
//!
//! Messages are encoded and decoded, and the Merkle path is walked, by the
//! `roughenough` crate; the hash of a query is written out by the `hex`
//! crate. What is assumed of the two stands in `wire` and `hexfmt` and
//! nowhere else. Everything above that is proved.

pub mod aggregate;
pub mod bytes;
pub mod error;
pub mod estimate;
pub mod hexfmt;
pub mod query;
pub mod reply;
pub mod request;
pub mod tag;
pub mod wire;

pub use crate::aggregate::{
    aggregate, any_contradicts, contradicts, uncertainty_bound, Metadata, TimestampResponse,
};
pub use crate::bytes::{digest_eq, le_u32, le_u64};
pub use crate::error::{wrap_err, FailureKind, ProbeFailure, ProtocolFault, TimestampError};
pub use crate::estimate::{
    estimate, midpoint_drift, midpoint_parts, parse_reply, sys_to_us, BeaconMeta, OFFSET_LIMIT,
};
pub use crate::query::{check_outcomes, resolve, resolve_checked, ProbeOutcome};
pub use crate::reply::{
    check_field, verify_reply, MerkleProof, ReplyClaims, ReplyFields, VerifiedReply,
};
pub use crate::request::{build_packet, nonce_from_hash, pad_nonce, HASH_LEN, NONCE_LEN};
pub use crate::tag::FieldTag;
pub use crate::wire::{DIGEST_LEN, MIN_REQUEST_LEN};
