//! Grounds a memory against the drift store: attaches it, reads each
//! declared source's evidence, and evaluates the readings.

use vstd::prelude::*;
use crate::cross_db::with_drift_attached;
use crate::data_source::GroundingDataSource;
use crate::drift_queries::{
    boundary_data, constraint_verified, coupling_metric, decision_evidence, dna_health, error_handling_gaps,
    false_positive_rate, pattern_confidence, pattern_occurrence_rate, test_coverage, unrecovered,
};
use crate::errors::{BridgeError, BridgeResult};
use crate::grounding::{
    evaluate_grounding, EvidenceReading, GroundingConfig, GroundingOutcome,
    GroundingVerdict,
};
use crate::types::{query_for, query_for_spec, EvidenceQuery};

verus! {

/// No declared source has a drift-store lookup.
pub open spec fn none_queried(evidence: Seq<(GroundingDataSource, String)>) -> bool {
    forall|i: int| 0 <= i < evidence.len() ==> #[trigger] query_for_spec(evidence[i].0) is None
}

/// The number of declared sources that have a drift-store lookup.
pub open spec fn queried_count(evidence: Seq<(GroundingDataSource, String)>) -> nat
    decreases evidence.len(),
{
    if evidence.len() == 0 {
        0
    } else {
        queried_count(evidence.drop_last()) + if query_for_spec(evidence.last().0) is Some { 1nat } else { 0nat }
    }
}

/// The kind of reading that `query` yields, when it yields one: a score for
/// the score lookups, verified-or-not for constraints, a gap count for error
/// handling.
pub open spec fn reading_fits(query: EvidenceQuery, o: Option<EvidenceReading>) -> bool {
    match o {
        None => true,
        Some(r) => match query {
            EvidenceQuery::ConstraintVerified => r is Verified,
            EvidenceQuery::ErrorHandlingGaps => r is Gaps,
            _ => r is Score,
        },
    }
}

/// A score lookup's result as an evidence reading.
pub fn as_score(r: BridgeResult<Option<u64>>) -> (out: BridgeResult<Option<EvidenceReading>>)
    ensures
        out == match r {
            Ok(Some(v)) => Ok::<Option<EvidenceReading>, BridgeError>(Some(EvidenceReading::Score(v))),
            Ok(None) => Ok(None),
            Err(e) => Err(e),
        },
{
    match r {
        Ok(Some(v)) => Ok(Some(EvidenceReading::Score(v))),
        Ok(None) => Ok(None),
        Err(e) => Err(e),
    }
}

/// Runs `query` for `key` and turns its result into an evidence reading of
/// the kind the query yields.
pub fn read_evidence(conn: &rusqlite::Connection, query: EvidenceQuery, key: &str) -> (r: BridgeResult<Option<EvidenceReading>>)
    ensures
        r is Ok ==> reading_fits(query, r->Ok_0),
        r is Err ==> unrecovered(r->Err_0),
{
    match query {
        EvidenceQuery::PatternConfidence => as_score(pattern_confidence(conn, key)),
        EvidenceQuery::PatternOccurrenceRate => as_score(pattern_occurrence_rate(conn, key)),
        EvidenceQuery::FalsePositiveRate => as_score(false_positive_rate(conn, key)),
        EvidenceQuery::CouplingMetric => as_score(coupling_metric(conn, key)),
        EvidenceQuery::DnaHealth => as_score(dna_health(conn, key)),
        EvidenceQuery::TestCoverage => as_score(test_coverage(conn, key)),
        EvidenceQuery::DecisionEvidence => as_score(decision_evidence(conn, key)),
        EvidenceQuery::BoundaryData => as_score(boundary_data(conn, key)),
        EvidenceQuery::ConstraintVerified => match constraint_verified(conn, key) {
            Ok(Some(b)) => Ok(Some(EvidenceReading::Verified(b))),
            Ok(None) => Ok(None),
            Err(e) => Err(e),
        },
        EvidenceQuery::ErrorHandlingGaps => match error_handling_gaps(conn, key) {
            Ok(Some(g)) => Ok(Some(EvidenceReading::Gaps(g))),
            Ok(None) => Ok(None),
            Err(e) => Err(e),
        },
    }
}

/// Whether some declared source has a drift-store lookup.
pub fn any_queried(evidence: &[(GroundingDataSource, String)]) -> (r: bool)
    ensures
        r == !none_queried(evidence@),
{
    let mut i: usize = 0;
    while i < evidence.len()
        invariant
            0 <= i <= evidence.len(),
            forall|j: int| 0 <= j < i ==> #[trigger] query_for_spec(evidence@[j].0) is None,
        decreases evidence.len() - i,
    {
        if query_for(evidence[i].0).is_some() {
            return true;
        }
        i += 1;
    }
    false
}

/// Reads one entry per declared source that has a drift-store lookup, in
/// declaration order; sources without one are not queried. With no lookup
/// to make, no store call is made and the result is an empty success.
pub fn collect_readings(conn: &rusqlite::Connection, evidence: &[(GroundingDataSource, String)]) -> (r: BridgeResult<Vec<Option<EvidenceReading>>>)
    ensures
        none_queried(evidence@) ==> r is Ok,
        r is Ok ==> r->Ok_0@.len() == queried_count(evidence@),
        r is Err ==> unrecovered(r->Err_0),
{
    let mut readings: Vec<Option<EvidenceReading>> = Vec::new();
    let mut i: usize = 0;
    while i < evidence.len()
        invariant
            0 <= i <= evidence.len(),
            readings@.len() == queried_count(evidence@.subrange(0, i as int)),
        decreases evidence.len() - i,
    {
        let ghost next = evidence@.subrange(0, i + 1);
        assert(next.drop_last() =~= evidence@.subrange(0, i as int));
        match query_for(evidence[i].0) {
            Some(query) => match read_evidence(conn, query, evidence[i].1.as_str()) {
                Ok(v) => readings.push(v),
                Err(e) => {
                    assert(query_for_spec(evidence@[i as int].0) is Some);
                    return Err(e);
                },
            },
            None => {},
        }
        i += 1;
    }
    assert(evidence@.subrange(0, evidence.len() as int) =~= evidence@);
    Ok(readings)
}

/// Grounds one memory from its declared `(source, key)` pairs, with the
/// drift store at `drift_db_path` attached read-only for the reads. Only
/// sources with a drift-store lookup count as queried; when there is none
/// (no sources at all included) the memory is `NotGroundable` and the store
/// is not touched.
pub fn ground_memory(
    bridge_conn: &rusqlite::Connection,
    drift_db_path: &str,
    evidence: &[(GroundingDataSource, String)],
    cfg: &GroundingConfig,
) -> (r: BridgeResult<GroundingOutcome>)
    requires
        cfg.wf(),
    ensures
        none_queried(evidence@) ==> (r is Ok && r->Ok_0.verdict == GroundingVerdict::NotGroundable
            && r->Ok_0.sources == 0),
        r is Ok ==> r->Ok_0.sources == queried_count(evidence@),
        r is Err ==> (unrecovered(r->Err_0) || r->Err_0 is AttachFailed),
{
    if !any_queried(evidence) {
        proof {
            lemma_none_queried_count(evidence@);
        }
        let none: Vec<Option<EvidenceReading>> = Vec::new();
        return Ok(evaluate_grounding(none.as_slice(), cfg));
    }
    let read_and_evaluate = |conn: &rusqlite::Connection| -> (out: BridgeResult<GroundingOutcome>)
        requires
            cfg.wf(),
        ensures
            out is Ok ==> out->Ok_0.sources == queried_count(evidence@),
            out is Err ==> unrecovered(out->Err_0),
        {
            match collect_readings(conn, evidence) {
                Ok(readings) => Ok(evaluate_grounding(readings.as_slice(), cfg)),
                Err(e) => Err(e),
            }
        };
    with_drift_attached(bridge_conn, drift_db_path, read_and_evaluate)
}

proof fn lemma_none_queried_count(evidence: Seq<(GroundingDataSource, String)>)
    requires
        none_queried(evidence),
    ensures
        queried_count(evidence) == 0,
    decreases evidence.len(),
{
    if evidence.len() > 0 {
        let p = evidence.drop_last();
        assert forall|i: int| 0 <= i < p.len() implies #[trigger] query_for_spec(p[i].0) is None by {
            assert(query_for_spec(evidence[i].0) is None);
        }
        lemma_none_queried_count(p);
        assert(query_for_spec(evidence[evidence.len() - 1].0) is None);
    }
}

} // verus!
