//! The end of a query: from what each probe came back with to the answer.
//!
//! Probes run side by side and none is stopped because another one failed.
//! When all have ended, the query has an answer if enough of them gave a
//! verified measurement. If not, it fails as a whole and names every beacon
//! that gave none, with the stage at which its probe failed.

use vstd::prelude::*;

use crate::aggregate::{aggregate, all_in_range, TimestampResponse};
use crate::error::{FailureKind, ProbeFailure, TimestampError};
use crate::estimate::BeaconMeta;

verus! {

/// What the probe of one beacon came back with.
#[derive(Debug, PartialEq, Eq)]
pub struct ProbeOutcome {
    pub host: String,
    pub result: Result<BeaconMeta, TimestampError>,
}

/// The measurements among the outcomes, in the order of the outcomes.
pub open spec fn measurements_of(outcomes: Seq<ProbeOutcome>) -> Seq<BeaconMeta>
    decreases outcomes.len(),
{
    if outcomes.len() == 0 {
        Seq::empty()
    } else {
        match outcomes.last().result {
            Ok(m) => measurements_of(outcomes.drop_last()).push(m),
            Err(_) => measurements_of(outcomes.drop_last()),
        }
    }
}

/// The beacons that gave no measurement, in the order of the outcomes, each
/// with the stage at which its probe failed.
pub open spec fn failures_of(outcomes: Seq<ProbeOutcome>) -> Seq<(Seq<char>, FailureKind)>
    decreases outcomes.len(),
{
    if outcomes.len() == 0 {
        Seq::empty()
    } else {
        match outcomes.last().result {
            Ok(_) => failures_of(outcomes.drop_last()),
            Err(e) => failures_of(outcomes.drop_last()).push(
                (outcomes.last().host@, e.spec_kind()),
            ),
        }
    }
}

/// Every measurement among the outcomes is within the range of the
/// estimator.
pub open spec fn outcomes_in_range(outcomes: Seq<ProbeOutcome>) -> bool {
    forall|i: int|
        0 <= i < outcomes.len() ==> ((#[trigger] outcomes[i]).result matches Ok(m) ==> m.in_range())
}

/// Enough probes succeeded: as many as the quorum asks for, and one in any
/// case, since no time follows from no measurement.
pub open spec fn quorum_met(outcomes: Seq<ProbeOutcome>, quorum: usize) -> bool {
    measurements_of(outcomes).len() >= quorum && measurements_of(outcomes).len() >= 1
}

/// The list names exactly the beacons in `expected`, in that order and with
/// those stages.
pub open spec fn names_failures(
    failed: Seq<ProbeFailure>,
    expected: Seq<(Seq<char>, FailureKind)>,
) -> bool {
    &&& failed.len() == expected.len()
    &&& forall|i: int|
        0 <= i < failed.len() ==> (#[trigger] failed[i]).host@ == expected[i].0 && failed[i].kind
            == expected[i].1
}

/// The decision on outcomes whose probes have all ended: the answer that the
/// measurements give where the quorum is met, and otherwise the error that
/// names the failures.
pub open spec fn decides(
    decision: Result<TimestampResponse, TimestampError>,
    hash: Seq<u8>,
    outcomes: Seq<ProbeOutcome>,
    quorum: usize,
) -> bool {
    if quorum_met(outcomes, quorum) {
        decision matches Ok(resp) && resp.answers(hash, measurements_of(outcomes))
    } else {
        decision matches Err(TimestampError::InsufficientProbes(failed)) && names_failures(
            failed@,
            failures_of(outcomes),
        )
    }
}

/// A failed probe takes nothing from the others: with its outcome added,
/// the measurements are what they were, and the failures are what they were
/// and this one.
pub proof fn lemma_failure_changes_no_measurement(outcomes: Seq<ProbeOutcome>, failed: ProbeOutcome)
    requires
        failed.result is Err,
    ensures
        measurements_of(outcomes.push(failed)) == measurements_of(outcomes),
        failures_of(outcomes.push(failed)) == failures_of(outcomes).push(
            (failed.host@, failed.result->Err_0.spec_kind()),
        ),
{
    assert(outcomes.push(failed).drop_last() == outcomes);
}

/// Decides a query whose probes have all ended.
///
/// With the quorum met, the answer is made of the measurements, in their
/// order. Without it the query fails and the error names every failed beacon
/// and the stage of its failure, in their order. A probe that failed is
/// never counted and never changes the answer of the others.
pub fn resolve(hash: [u8; 32], outcomes: Vec<ProbeOutcome>, quorum: usize) -> (r: Result<
    TimestampResponse,
    TimestampError,
>)
    requires
        outcomes_in_range(outcomes@),
    ensures
        decides(r, hash@, outcomes@, quorum),
{
    let ghost all = outcomes@;
    let mut measured: Vec<BeaconMeta> = Vec::new();
    let mut failed: Vec<ProbeFailure> = Vec::new();
    for outcome in it: outcomes
        invariant
            it.seq() == all,
            outcomes_in_range(all),
            measured@ == measurements_of(all.take(it.index() as int)),
            names_failures(failed@, failures_of(all.take(it.index() as int))),
            all_in_range(measured@),
    {
        proof {
            let k = it.index() as int;
            assert(all.take(k + 1).drop_last() == all.take(k));
        }
        let ProbeOutcome { host, result } = outcome;
        match result {
            Ok(m) => {
                measured.push(m);
            },
            Err(e) => {
                failed.push(ProbeFailure { host, kind: e.kind() });
            },
        }
    }
    assert(all.take(all.len() as int) == all);
    if measured.len() >= quorum && measured.len() >= 1 {
        Ok(aggregate(hash, measured))
    } else {
        Err(TimestampError::InsufficientProbes(failed))
    }
}

/// Whether every measurement among the outcomes is within the range of the
/// estimator.
pub fn check_outcomes(outcomes: &Vec<ProbeOutcome>) -> (ok: bool)
    ensures
        ok == outcomes_in_range(outcomes@),
{
    let n: usize = outcomes.len();
    let mut i: usize = 0;
    while i < n
        invariant
            n == outcomes@.len(),
            i <= n,
            forall|k: int|
                0 <= k < i ==> ((#[trigger] outcomes@[k]).result matches Ok(m) ==> m.in_range()),
        decreases n - i,
    {
        match &outcomes[i].result {
            Ok(m) => {
                if !m.check_range() {
                    return false;
                }
            },
            Err(_) => {},
        }
        i = i + 1;
    }
    true
}

/// Decides a query on outcomes of any origin.
///
/// Measurements that the estimator made are within its range, and for
/// outcomes with such measurements this is `resolve`. Where a measurement is
/// out of that range, nothing is decided and the result is `None`.
pub fn resolve_checked(hash: [u8; 32], outcomes: Vec<ProbeOutcome>, quorum: usize) -> (r: Option<
    Result<TimestampResponse, TimestampError>,
>)
    ensures
        r is Some <==> outcomes_in_range(outcomes@),
        r matches Some(decision) ==> decides(decision, hash@, outcomes@, quorum),
{
    if check_outcomes(&outcomes) {
        Some(resolve(hash, outcomes, quorum))
    } else {
        None
    }
}

} // verus!
