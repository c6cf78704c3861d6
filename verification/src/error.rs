//! Error taxonomy of a query.
//!
//! A probe fails for one of four reasons that a caller has to tell apart: the
//! transport failed, no reply came in time, the reply was not a well-formed
//! message, or the reply was well formed and its inclusion proof did not hold.
//! The last one means that the beacon lied or the reply was corrupted, and is
//! never folded into the others.

use vstd::prelude::*;

use crate::tag::FieldTag;

verus! {

/// What was wrong with the bytes of a reply.
#[derive(Debug, Clone, Copy, PartialEq, Eq, Structural)]
pub enum ProtocolFault {
    /// The bytes are not a tagged message at all.
    Undecodable,
    /// A required field is absent.
    Missing(FieldTag),
    /// A required field is present and has the wrong length, or, for the
    /// signed response, is not itself a tagged message.
    Malformed(FieldTag),
}

/// The stage at which a probe, or the whole query, failed.
#[derive(Debug, Clone, Copy, PartialEq, Eq, Structural)]
pub enum FailureKind {
    Network,
    Timeout,
    Protocol,
    Verification,
    Join,
    InsufficientProbes,
}

/// One beacon that gave no measurement, and why.
#[derive(Debug, Clone, PartialEq, Eq)]
pub struct ProbeFailure {
    pub host: String,
    pub kind: FailureKind,
}

/// Why a probe, or the query as a whole, gave no result.
#[derive(Debug, Clone, PartialEq, Eq)]
pub enum TimestampError {
    /// The socket or the transport below it failed.
    Network,
    /// No reply arrived within the bound.
    Timeout,
    /// The reply is malformed or lacks a required field.
    Protocol(ProtocolFault),
    /// The inclusion proof does not lead from the nonce to the signed root.
    Verification,
    /// The probe ended without a result.
    Join,
    /// Fewer probes than the quorum gave a measurement.
    InsufficientProbes(Vec<ProbeFailure>),
}

impl TimestampError {
    /// The stage that this error belongs to.
    pub open spec fn spec_kind(&self) -> FailureKind {
        match self {
            TimestampError::Network => FailureKind::Network,
            TimestampError::Timeout => FailureKind::Timeout,
            TimestampError::Protocol(_) => FailureKind::Protocol,
            TimestampError::Verification => FailureKind::Verification,
            TimestampError::Join => FailureKind::Join,
            TimestampError::InsufficientProbes(_) => FailureKind::InsufficientProbes,
        }
    }

    /// The stage that this error belongs to.
    #[verifier::when_used_as_spec(spec_kind)]
    pub fn kind(&self) -> (k: FailureKind)
        ensures
            k == self.spec_kind(),
    {
        match self {
            TimestampError::Network => FailureKind::Network,
            TimestampError::Timeout => FailureKind::Timeout,
            TimestampError::Protocol(_) => FailureKind::Protocol,
            TimestampError::Verification => FailureKind::Verification,
            TimestampError::Join => FailureKind::Join,
            TimestampError::InsufficientProbes(_) => FailureKind::InsufficientProbes,
        }
    }
}

/// Turns a decoding error of the message layer into the error of this
/// library: whatever the message layer objected to, the peer sent bytes that
/// are not a message.
pub fn wrap_err(e: roughenough::Error) -> (r: TimestampError)
    ensures
        r == TimestampError::Protocol(ProtocolFault::Undecodable),
{
    TimestampError::Protocol(ProtocolFault::Undecodable)
}

} // verus!
