//! From the measurements of several beacons to one timestamp.
//!
//! The rule, for two beacons: where their offsets differ by more than their
//! uncertainties together allow, the beacons contradict each other and the
//! offset of the one with the smaller uncertainty is applied; otherwise the
//! mean of the two offsets is applied. The difference of the offsets, the
//! drift, is reported in both cases.
//!
//! For any number of beacons the same rule reads: the beacons contradict each
//! other where any two of them do; the offset applied is then that of the
//! smallest uncertainty, the first of them where several are equal, and
//! otherwise the middle between the least and the greatest offset, rounded
//! down; the drift is the greatest offset minus the least. The offset is
//! applied to the earliest of the local times of the measurements.

use vstd::prelude::*;

use crate::estimate::BeaconMeta;
use crate::hexfmt::{hex_encode, hex_lower};

verus! {

/// What the measurements were reduced to, and the measurements themselves.
#[derive(Debug, Clone, PartialEq, Eq)]
pub struct Metadata {
    /// Every measurement that went into the result, as it was made.
    pub beacons: Vec<BeaconMeta>,
    /// The offset that was applied, in microseconds.
    pub offset_us: i128,
    /// Greatest minus least offset of the beacons, in microseconds.
    pub drift_us: u128,
}

/// The answer to a query.
#[derive(Debug, Clone, PartialEq, Eq)]
pub struct TimestampResponse {
    /// The hash that the query was about, in hexadecimal.
    pub input_hash: String,
    /// The resolved time in microseconds since the epoch: the earliest local
    /// time of the measurements plus the offset applied. It is signed since
    /// a beacon far behind the local clock can resolve to before the epoch.
    pub timestamp: i128,
    pub metadata: Metadata,
}

/// The least offset.
pub open spec fn least_offset(ms: Seq<BeaconMeta>) -> int
    decreases ms.len(),
{
    if ms.len() == 0 {
        0
    } else if ms.len() == 1 {
        ms[0].offset_us as int
    } else if ms.last().offset_us < least_offset(ms.drop_last()) {
        ms.last().offset_us as int
    } else {
        least_offset(ms.drop_last())
    }
}

/// The greatest offset.
pub open spec fn greatest_offset(ms: Seq<BeaconMeta>) -> int
    decreases ms.len(),
{
    if ms.len() == 0 {
        0
    } else if ms.len() == 1 {
        ms[0].offset_us as int
    } else if ms.last().offset_us > greatest_offset(ms.drop_last()) {
        ms.last().offset_us as int
    } else {
        greatest_offset(ms.drop_last())
    }
}

/// The earliest local time.
pub open spec fn earliest_local_us(ms: Seq<BeaconMeta>) -> int
    decreases ms.len(),
{
    if ms.len() == 0 {
        0
    } else if ms.len() == 1 {
        ms[0].true_time_us as int
    } else if ms.last().true_time_us < earliest_local_us(ms.drop_last()) {
        ms.last().true_time_us as int
    } else {
        earliest_local_us(ms.drop_last())
    }
}

/// Index of the measurement with the smallest uncertainty, the first of
/// them where several are equal.
pub open spec fn most_certain(ms: Seq<BeaconMeta>) -> int
    decreases ms.len(),
{
    if ms.len() <= 1 {
        0
    } else if ms.last().uncert_us < ms[most_certain(ms.drop_last())].uncert_us {
        ms.len() - 1
    } else {
        most_certain(ms.drop_last())
    }
}

/// Two measurements contradict each other: their offsets are further apart
/// than the sum of their uncertainties.
pub open spec fn contradict(a: BeaconMeta, b: BeaconMeta) -> bool {
    let gap = a.offset_us - b.offset_us;
    (if gap >= 0 { gap } else { -gap }) > a.uncert_us + b.uncert_us
}

/// The measurements at `i` and `j` are two and contradict each other.
pub open spec fn contradict_at(ms: Seq<BeaconMeta>, i: int, j: int) -> bool {
    0 <= i < j < ms.len() && contradict(ms[i], ms[j])
}

/// Some two measurements contradict each other.
pub open spec fn any_contradict(ms: Seq<BeaconMeta>) -> bool {
    exists|i: int, j: int| contradict_at(ms, i, j)
}

/// The greatest uncertainty.
pub open spec fn greatest_uncertainty(ms: Seq<BeaconMeta>) -> int
    decreases ms.len(),
{
    if ms.len() == 0 {
        0
    } else if ms.len() == 1 {
        ms[0].uncert_us as int
    } else if ms.last().uncert_us > greatest_uncertainty(ms.drop_last()) {
        ms.last().uncert_us as int
    } else {
        greatest_uncertainty(ms.drop_last())
    }
}

/// The drift: greatest minus least offset.
pub open spec fn drift_us(ms: Seq<BeaconMeta>) -> int {
    greatest_offset(ms) - least_offset(ms)
}

/// The offset to apply.
pub open spec fn chosen_offset_us(ms: Seq<BeaconMeta>) -> int {
    if any_contradict(ms) {
        ms[most_certain(ms)].offset_us as int
    } else {
        (least_offset(ms) + greatest_offset(ms)) / 2
    }
}

/// The resolved time: the earliest local time plus the offset applied.
pub open spec fn resolved_timestamp_us(ms: Seq<BeaconMeta>) -> int {
    earliest_local_us(ms) + chosen_offset_us(ms)
}

/// Every measurement is within the range of the estimator.
pub open spec fn all_in_range(ms: Seq<BeaconMeta>) -> bool {
    forall|i: int| 0 <= i < ms.len() ==> (#[trigger] ms[i]).in_range()
}

impl TimestampResponse {
    /// This is the answer for `hash` that the measurements `ms` give.
    pub open spec fn answers(&self, hash: Seq<u8>, ms: Seq<BeaconMeta>) -> bool {
        &&& self.input_hash@ == hex_lower(hash)
        &&& self.metadata.beacons@ == ms
        &&& self.metadata.offset_us == chosen_offset_us(ms)
        &&& self.metadata.drift_us == drift_us(ms)
        &&& self.timestamp == resolved_timestamp_us(ms)
    }
}

/// Whether two measurements contradict each other.
pub fn contradicts(a: &BeaconMeta, b: &BeaconMeta) -> (c: bool)
    requires
        a.in_range(),
        b.in_range(),
    ensures
        c == contradict(*a, *b),
{
    let gap: i128 = a.offset_us - b.offset_us;
    let distance: i128 = if gap >= 0 {
        gap
    } else {
        -gap
    };
    distance > a.uncert_us + b.uncert_us
}

/// Whether any two of the measurements contradict each other.
pub fn any_contradicts(ms: &Vec<BeaconMeta>) -> (c: bool)
    requires
        all_in_range(ms@),
    ensures
        c == any_contradict(ms@),
{
    let n: usize = ms.len();
    let mut found = false;
    let mut i: usize = 0;
    while i < n
        invariant
            n == ms@.len(),
            i <= n,
            all_in_range(ms@),
            found <==> exists|p: int, q: int| p < i && contradict_at(ms@, p, q),
        decreases n - i,
    {
        let mut j: usize = i + 1;
        let ghost before = found;
        while j < n
            invariant
                n == ms@.len(),
                i < j <= n,
                all_in_range(ms@),
                before <==> exists|p: int, q: int| p < i && contradict_at(ms@, p, q),
                found <==> before || exists|q: int| q < j && contradict_at(ms@, i as int, q),
            decreases n - j,
        {
            if contradicts(&ms[i], &ms[j]) {
                assert(contradict_at(ms@, i as int, j as int));
                found = true;
            }
            j = j + 1;
        }
        proof {
            if found && !before {
                let q = choose|q: int| q < j && contradict_at(ms@, i as int, q);
                assert(i < i + 1 && contradict_at(ms@, i as int, q));
            }
            if !found {
                assert forall|p: int, q: int| p < i + 1 implies !contradict_at(ms@, p, q) by {
                    if p == i && contradict_at(ms@, p, q) {
                        assert(q < j);
                    }
                }
            }
        }
        i = i + 1;
    }
    proof {
        if any_contradict(ms@) {
            let (p, q) = choose|p: int, q: int| contradict_at(ms@, p, q);
            assert(p < i);
        }
    }
    found
}

/// The greatest uncertainty among the measurements: the bound that holds
/// for each of them.
pub fn uncertainty_bound(ms: &Vec<BeaconMeta>) -> (bound: i128)
    requires
        ms@.len() >= 1,
    ensures
        bound == greatest_uncertainty(ms@),
{
    let n: usize = ms.len();
    let mut bound: i128 = ms[0].uncert_us;
    let mut i: usize = 1;
    while i < n
        invariant
            n == ms@.len(),
            1 <= i <= n,
            bound == greatest_uncertainty(ms@.take(i as int)),
        decreases n - i,
    {
        assert(ms@.take(i + 1).drop_last() == ms@.take(i as int));
        if ms[i].uncert_us > bound {
            bound = ms[i].uncert_us;
        }
        i = i + 1;
    }
    assert(ms@.take(n as int) == ms@);
    bound
}

/// Reduces the measurements of one query to its answer.
///
/// The answer holds every measurement as it was given, the drift, the offset
/// that the rule of this module chooses, and the earliest local time of the
/// measurements with that offset applied. It depends on nothing but the
/// arguments.
pub fn aggregate(hash: [u8; 32], measurements: Vec<BeaconMeta>) -> (resp: TimestampResponse)
    requires
        measurements@.len() >= 1,
        all_in_range(measurements@),
    ensures
        resp.answers(hash@, measurements@),
{
    let n: usize = measurements.len();
    let mut least: i128 = measurements[0].offset_us;
    let mut greatest: i128 = measurements[0].offset_us;
    let mut earliest: u64 = measurements[0].true_time_us;
    let mut best: usize = 0;
    let mut i: usize = 1;
    while i < n
        invariant
            n == measurements@.len(),
            1 <= i <= n,
            all_in_range(measurements@),
            least == least_offset(measurements@.take(i as int)),
            greatest == greatest_offset(measurements@.take(i as int)),
            earliest == earliest_local_us(measurements@.take(i as int)),
            best == most_certain(measurements@.take(i as int)),
            best < i,
            -crate::estimate::OFFSET_LIMIT < least <= greatest < crate::estimate::OFFSET_LIMIT,
        decreases n - i,
    {
        let m = &measurements[i];
        assert(measurements@.take(i + 1).drop_last() == measurements@.take(i as int));
        if m.offset_us < least {
            least = m.offset_us;
        }
        if m.offset_us > greatest {
            greatest = m.offset_us;
        }
        if m.true_time_us < earliest {
            earliest = m.true_time_us;
        }
        if m.uncert_us < measurements[best].uncert_us {
            best = i;
        }
        i = i + 1;
    }
    assert(measurements@.take(n as int) == measurements@);
    let offset_us: i128 = if any_contradicts(&measurements) {
        measurements[best].offset_us
    } else {
        let sum: i128 = least + greatest;
        if sum >= 0 {
            sum / 2
        } else {
            -((1 - sum) / 2)
        }
    };
    let drift: i128 = greatest - least;
    TimestampResponse {
        input_hash: hex_encode(hash.as_slice()),
        timestamp: earliest as i128 + offset_us,
        metadata: Metadata { beacons: measurements, offset_us, drift_us: drift as u128 },
    }
}

/// The rule for two beacons: the drift is the distance of the two offsets;
/// where the beacons contradict each other, the offset of the smaller
/// uncertainty is applied, that of the first where both are equal, and
/// otherwise the mean of the two offsets, rounded down.
pub proof fn lemma_two_beacons(a: BeaconMeta, b: BeaconMeta)
    ensures
        ({
            let ms = seq![a, b];
            let gap = a.offset_us - b.offset_us;
            &&& drift_us(ms) == (if gap >= 0 { gap } else { -gap })
            &&& any_contradict(ms) == contradict(a, b)
            &&& contradict(a, b) && a.uncert_us <= b.uncert_us ==> chosen_offset_us(ms)
                == a.offset_us
            &&& contradict(a, b) && a.uncert_us > b.uncert_us ==> chosen_offset_us(ms)
                == b.offset_us
            &&& !contradict(a, b) ==> chosen_offset_us(ms) == (a.offset_us + b.offset_us) / 2
        }),
{
    let ms = seq![a, b];
    reveal_with_fuel(least_offset, 3);
    reveal_with_fuel(greatest_offset, 3);
    reveal_with_fuel(most_certain, 3);
    if contradict(a, b) {
        assert(contradict_at(ms, 0, 1));
    }
    if any_contradict(ms) {
        let (i, j) = choose|i: int, j: int| contradict_at(ms, i, j);
        assert(i == 0 && j == 1);
    }
}

/// Every offset lies between the least and the greatest, and the index of
/// the most certain measurement is an index of the sequence.
pub proof fn lemma_offsets_are_bounded(ms: Seq<BeaconMeta>, k: int)
    requires
        0 <= k < ms.len(),
    ensures
        least_offset(ms) <= ms[k].offset_us <= greatest_offset(ms),
        0 <= most_certain(ms) < ms.len(),
    decreases ms.len(),
{
    if ms.len() > 1 {
        let rest = ms.drop_last();
        if k < rest.len() {
            lemma_offsets_are_bounded(rest, k);
        } else {
            lemma_offsets_are_bounded(rest, 0);
        }
    }
}

/// The offset that is applied is never outside what the beacons claim: it
/// lies between their least and their greatest offset. The drift is never
/// negative.
pub proof fn lemma_chosen_offset_is_bounded(ms: Seq<BeaconMeta>)
    requires
        ms.len() >= 1,
    ensures
        least_offset(ms) <= chosen_offset_us(ms) <= greatest_offset(ms),
        drift_us(ms) >= 0,
{
    lemma_offsets_are_bounded(ms, 0);
    lemma_offsets_are_bounded(ms, most_certain(ms));
}

/// One beacon alone is taken at its word: its offset is applied and the
/// drift is zero.
pub proof fn lemma_one_beacon(a: BeaconMeta)
    ensures
        drift_us(seq![a]) == 0,
        chosen_offset_us(seq![a]) == a.offset_us,
        resolved_timestamp_us(seq![a]) == a.true_time_us + a.offset_us,
{
    let ms = seq![a];
    assert(!any_contradict(ms)) by {
        assert forall|i: int, j: int| !contradict_at(ms, i, j) by {}
    }
}

} // verus!
