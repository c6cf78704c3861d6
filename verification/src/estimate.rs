//! From a verified reply and the round trip to an offset of the local clock.
//!
//! The delay is taken to be the same in both directions, so the beacon's
//! midpoint belongs to the local instant half a round trip after the send.
//! Half the round trip is also what this assumption may be wrong by, and is
//! added to the beacon's radius: the result is a bound on the error, not a
//! standard deviation.

use vstd::prelude::*;

use crate::error::TimestampError;
use crate::reply::{reply_verdict, verify_reply};

verus! {

/// Nanoseconds in a microsecond.
pub const NANOS_PER_MICRO: u64 = 1000;

/// Offsets and uncertainties of measurements stay below this bound in
/// magnitude: 2 to the 64, which no time in microseconds that fits the wire
/// format can exceed.
pub const OFFSET_LIMIT: i128 = 0x1_0000_0000_0000_0000;

/// One verified measurement of one beacon.
#[derive(Debug, Clone, PartialEq, Eq)]
pub struct BeaconMeta {
    /// The beacon that was asked.
    pub host: String,
    /// Round trip on the monotonic clock, in nanoseconds.
    pub rtt_ns: u64,
    /// Local wall clock half a round trip after the send, in microseconds
    /// since the epoch.
    pub true_time_us: u64,
    /// The beacon's time, in microseconds since the epoch.
    pub midpoint_us: u64,
    /// The beacon's bound on the error of its time, in microseconds.
    pub radius_us: u32,
    /// Beacon's clock minus local clock, in microseconds: positive where the
    /// beacon is ahead.
    pub offset_us: i128,
    /// Bound on the error of `offset_us`, in microseconds.
    pub uncert_us: i128,
}

/// Half the round trip in whole microseconds, of a round trip in whole
/// microseconds.
pub open spec fn half_rtt_us(rtt_ns: u64) -> int {
    (rtt_ns as int / 1000) / 2
}

/// The local instant that the beacon's midpoint belongs to, in nanoseconds
/// since the epoch.
pub open spec fn local_midpoint_ns(send_wall_ns: u64, rtt_ns: u64) -> int {
    send_wall_ns + 1000 * half_rtt_us(rtt_ns)
}

/// The whole microseconds in a span of nanoseconds that has a direction: a
/// negative span has as many as the positive span of that length, negated.
pub open spec fn whole_micros(span_ns: int) -> int {
    if span_ns >= 0 {
        span_ns / 1000
    } else {
        -((-span_ns) / 1000)
    }
}

/// Beacon minus local clock in microseconds.
pub open spec fn clock_offset_us(send_wall_ns: u64, rtt_ns: u64, midpoint_us: u64) -> int {
    whole_micros(1000 * midpoint_us - local_midpoint_ns(send_wall_ns, rtt_ns))
}

/// Bound on the error of the offset in microseconds.
pub open spec fn uncertainty_us(rtt_ns: u64, radius_us: u32) -> int {
    radius_us + half_rtt_us(rtt_ns)
}

impl BeaconMeta {
    /// Offset and uncertainty are within `OFFSET_LIMIT`, and the uncertainty
    /// is not negative.
    pub open spec fn in_range(&self) -> bool {
        &&& -OFFSET_LIMIT < self.offset_us < OFFSET_LIMIT
        &&& 0 <= self.uncert_us < OFFSET_LIMIT
    }

    /// This is the measurement that the estimator makes of these inputs.
    pub open spec fn is_estimate(
        &self,
        host: Seq<char>,
        send_wall_ns: u64,
        rtt_ns: u64,
        midpoint_us: u64,
        radius_us: u32,
    ) -> bool {
        &&& self.host@ == host
        &&& self.rtt_ns == rtt_ns
        &&& self.true_time_us == send_wall_ns / 1000 + half_rtt_us(rtt_ns)
        &&& self.midpoint_us == midpoint_us
        &&& self.radius_us == radius_us
        &&& self.offset_us == clock_offset_us(send_wall_ns, rtt_ns, midpoint_us)
        &&& self.uncert_us == uncertainty_us(rtt_ns, radius_us)
    }

    /// Whether offset and uncertainty are within `OFFSET_LIMIT`.
    pub fn check_range(&self) -> (ok: bool)
        ensures
            ok == self.in_range(),
    {
        -OFFSET_LIMIT < self.offset_us && self.offset_us < OFFSET_LIMIT && 0 <= self.uncert_us
            && self.uncert_us < OFFSET_LIMIT
    }
}

/// Whole microseconds since the epoch of an instant given in nanoseconds
/// since the epoch.
pub fn sys_to_us(t_ns: u64) -> (t_us: u64)
    ensures
        t_us == t_ns / 1000,
{
    t_ns / NANOS_PER_MICRO
}

/// Microseconds in a second.
pub const MICROS_PER_SEC: u64 = 1_000_000;

/// Splits a time in microseconds since the epoch into whole seconds and the
/// nanoseconds of the second begun, as calendars take it.
pub fn midpoint_parts(midpoint_us: u64) -> (parts: (i64, u32))
    ensures
        parts.0 == midpoint_us / 1_000_000,
        parts.1 == (midpoint_us % 1_000_000) * 1000,
        parts.1 < 1_000_000_000,
{
    let secs: u64 = midpoint_us / MICROS_PER_SEC;
    let sub_us: u64 = midpoint_us % MICROS_PER_SEC;
    (secs as i64, (sub_us * 1000) as u32)
}

/// How far the midpoints of two beacons are apart, in microseconds. This is
/// the drift before any round trip is taken into account.
pub fn midpoint_drift(a_us: u64, b_us: u64) -> (drift_us: u64)
    ensures
        a_us >= b_us ==> drift_us == a_us - b_us,
        a_us < b_us ==> drift_us == b_us - a_us,
{
    if a_us >= b_us {
        a_us - b_us
    } else {
        b_us - a_us
    }
}

/// Estimates the offset of the local clock from one exchange.
///
/// `send_wall_ns` is the local wall clock just before the send, in
/// nanoseconds since the epoch, and `rtt_ns` the round trip on the monotonic
/// clock. The offset is the beacon's midpoint minus the local instant half a
/// round trip after the send; the uncertainty is the beacon's radius plus
/// half the round trip.
pub fn estimate(host: &str, send_wall_ns: u64, rtt_ns: u64, midpoint_us: u64, radius_us: u32) -> (m:
    BeaconMeta)
    ensures
        m.is_estimate(host@, send_wall_ns, rtt_ns, midpoint_us, radius_us),
        m.in_range(),
{
    let half_us: u64 = (rtt_ns / NANOS_PER_MICRO) / 2;
    let local_ns: i128 = send_wall_ns as i128 + 1000 * (half_us as i128);
    let beacon_ns: i128 = 1000 * (midpoint_us as i128);
    let span_ns: i128 = beacon_ns - local_ns;
    let offset_us: i128 = if span_ns >= 0 {
        span_ns / 1000
    } else {
        -((-span_ns) / 1000)
    };
    BeaconMeta {
        host: host.to_string(),
        rtt_ns,
        true_time_us: sys_to_us(send_wall_ns) + half_us,
        midpoint_us,
        radius_us,
        offset_us,
        uncert_us: radius_us as i128 + half_us as i128,
    }
}

/// Verifies the reply of `host` to the request for `nonce` and, if it
/// holds, estimates the offset from it.
///
/// This is the only way from the bytes of a reply to a measurement: a reply
/// that fails verification gives its error and nothing else.
pub fn parse_reply(host: &str, nonce: &[u8], reply: &[u8], send_wall_ns: u64, rtt_ns: u64) -> (r:
    Result<BeaconMeta, TimestampError>)
    ensures
        match reply_verdict(nonce@, reply@) {
            Ok(v) => r matches Ok(m) && m.is_estimate(
                host@,
                send_wall_ns,
                rtt_ns,
                v.midpoint_us,
                v.radius_us,
            ) && m.in_range(),
            Err(e) => r == Err::<BeaconMeta, TimestampError>(e),
        },
{
    match verify_reply(nonce, reply) {
        Ok(v) => Ok(estimate(host, send_wall_ns, rtt_ns, v.midpoint_us, v.radius_us)),
        Err(e) => Err(e),
    }
}

/// An exchange with a beacon whose clock agrees with the local one: where
/// the send was at a whole microsecond and the beacon's midpoint is that
/// instant plus half the round trip, the offset is zero, and the uncertainty
/// is the radius plus half the round trip.
pub proof fn lemma_clocks_in_step(send_wall_us: u64, rtt_ns: u64, midpoint_us: u64, radius_us: u32)
    requires
        1000 * send_wall_us <= u64::MAX,
        midpoint_us == send_wall_us + half_rtt_us(rtt_ns),
    ensures
        clock_offset_us((1000 * send_wall_us) as u64, rtt_ns, midpoint_us) == 0,
        uncertainty_us(rtt_ns, radius_us) == radius_us + half_rtt_us(rtt_ns),
{
}

/// The sign of the offset: it is positive where the beacon's midpoint is at
/// least a microsecond past the local instant of the exchange, negative
/// where it is at least a microsecond before it, and zero between the two.
/// In microseconds it is less than one away from the exact difference.
pub proof fn lemma_offset_sign(send_wall_ns: u64, rtt_ns: u64, midpoint_us: u64)
    ensures
        ({
            let ahead_ns = 1000 * midpoint_us - local_midpoint_ns(send_wall_ns, rtt_ns);
            let offset = clock_offset_us(send_wall_ns, rtt_ns, midpoint_us);
            &&& offset > 0 <==> ahead_ns >= 1000
            &&& offset < 0 <==> ahead_ns <= -1000
            &&& offset == 0 <==> -1000 < ahead_ns < 1000
            &&& ahead_ns - 1000 < 1000 * offset < ahead_ns + 1000
        }),
{
}

} // verus!
