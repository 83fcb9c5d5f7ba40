//! Point lookups against the drift store, one per evidence type, and the
//! error policy they share: no row and a missing table both read as "no
//! reading". Scores are read in millionths, the unit of `SCORE_SCALE`.

use vstd::prelude::*;
use crate::errors::{BridgeError, BridgeResult, StoreFault};
use crate::sqlite::{fault_of, query_bool, query_i64, query_u32};
use crate::text::{contains_spec, contains_text, one_text};

verus! {

/// The store error text that marks a table the drift store does not have.
pub open spec fn missing_table_marker() -> Seq<char> {
    "no such table"@
}

/// A store error that no query recovers from: a storage error whose text
/// does not report a missing table.
pub open spec fn unrecovered(e: BridgeError) -> bool {
    match e {
        BridgeError::Storage { message } => !contains_spec(message@, missing_table_marker()),
        _ => false,
    }
}

/// The outcome of a point query, settled by the shared error policy: a row
/// is a reading, no row or a missing table is no reading, and any other
/// failure surfaces as a storage error with its message.
pub open spec fn settled<T>(r: Result<T, StoreFault>) -> BridgeResult<Option<T>> {
    match r {
        Ok(v) => Ok(Some(v)),
        Err(StoreFault::NoRows) => Ok(None),
        Err(StoreFault::Failure(m)) => if contains_spec(m@, missing_table_marker()) {
            Ok(None)
        } else {
            Err(BridgeError::Storage { message: m })
        },
    }
}

/// Applies the shared error policy to the outcome of a point query.
pub fn settle_reading<T>(r: Result<T, StoreFault>) -> (out: BridgeResult<Option<T>>)
    ensures
        out == settled(r),
{
    match r {
        Ok(v) => Ok(Some(v)),
        Err(StoreFault::NoRows) => Ok(None),
        Err(StoreFault::Failure(m)) => {
            proof {
                reveal_strlit("no such table");
            }
            if contains_text(m.as_str(), "no such table") {
                Ok(None)
            } else {
                Err(BridgeError::Storage { message: m })
            }
        },
    }
}

/// Applies the shared error policy to a rusqlite query result: a row is a
/// reading; a failure is no reading or an unrecovered storage error.
pub fn settle_query<T>(r: Result<T, rusqlite::Error>) -> (out: BridgeResult<Option<T>>)
    ensures
        r is Ok ==> out == Ok::<Option<T>, BridgeError>(Some(r->Ok_0)),
        r is Err ==> out == Ok::<Option<T>, BridgeError>(None) || (out is Err && unrecovered(out->Err_0)),
{
    match r {
        Ok(v) => Ok(Some(v)),
        Err(e) => {
            let f = fault_of(e);
            let out = settle_reading::<T>(Err(f));
            out
        },
    }
}

/// A settled score reading, with a negative score read as zero.
pub fn clamp_score(r: BridgeResult<Option<i64>>) -> (out: BridgeResult<Option<u64>>)
    ensures
        out == match r {
            Ok(Some(v)) => Ok::<Option<u64>, BridgeError>(Some(if v < 0 { 0u64 } else { v as u64 })),
            Ok(None) => Ok(None),
            Err(e) => Err(e),
        },
{
    match r {
        Ok(Some(v)) => if v < 0 { Ok(Some(0)) } else { Ok(Some(v as u64)) },
        Ok(None) => Ok(None),
        Err(e) => Err(e),
    }
}

/// A score column read in millionths (the store rounds `column * 10^6` to
/// an integer), settled by the shared policy and clamped by `clamp_score`.
fn read_score(conn: &rusqlite::Connection, sql: &str, key: &str) -> (r: BridgeResult<Option<u64>>)
    ensures
        r is Err ==> unrecovered(r->Err_0),
{
    clamp_score(settle_query(query_i64(conn, sql, one_text(key).as_slice())))
}

/// Pattern confidence in millionths, by pattern id.
pub fn pattern_confidence(conn: &rusqlite::Connection, pattern_id: &str) -> (r: BridgeResult<Option<u64>>)
    ensures
        r is Err ==> unrecovered(r->Err_0),
{
    read_score(conn, "SELECT CAST(ROUND(confidence * 1000000) AS INTEGER) FROM drift_patterns WHERE id = ?1", pattern_id)
}

/// Pattern occurrence rate in millionths, by pattern id.
pub fn pattern_occurrence_rate(conn: &rusqlite::Connection, pattern_id: &str) -> (r: BridgeResult<Option<u64>>)
    ensures
        r is Err ==> unrecovered(r->Err_0),
{
    read_score(conn, "SELECT CAST(ROUND(occurrence_rate * 1000000) AS INTEGER) FROM drift_patterns WHERE id = ?1", pattern_id)
}

/// False-positive rate in millionths, by pattern id.
pub fn false_positive_rate(conn: &rusqlite::Connection, pattern_id: &str) -> (r: BridgeResult<Option<u64>>)
    ensures
        r is Err ==> unrecovered(r->Err_0),
{
    read_score(conn, "SELECT CAST(ROUND(fp_rate * 1000000) AS INTEGER) FROM drift_violation_feedback WHERE pattern_id = ?1", pattern_id)
}

/// Coupling instability in millionths, by module path.
pub fn coupling_metric(conn: &rusqlite::Connection, module: &str) -> (r: BridgeResult<Option<u64>>)
    ensures
        r is Err ==> unrecovered(r->Err_0),
{
    read_score(conn, "SELECT CAST(ROUND(instability * 1000000) AS INTEGER) FROM drift_coupling WHERE module = ?1", module)
}

/// DNA health score in millionths, by project.
pub fn dna_health(conn: &rusqlite::Connection, project: &str) -> (r: BridgeResult<Option<u64>>)
    ensures
        r is Err ==> unrecovered(r->Err_0),
{
    read_score(conn, "SELECT CAST(ROUND(health_score * 1000000) AS INTEGER) FROM drift_dna WHERE project = ?1", project)
}

/// Test coverage in millionths, by module path.
pub fn test_coverage(conn: &rusqlite::Connection, module: &str) -> (r: BridgeResult<Option<u64>>)
    ensures
        r is Err ==> unrecovered(r->Err_0),
{
    read_score(conn, "SELECT CAST(ROUND(coverage * 1000000) AS INTEGER) FROM drift_test_topology WHERE module = ?1", module)
}

/// Decision evidence score in millionths, by decision id.
pub fn decision_evidence(conn: &rusqlite::Connection, decision_id: &str) -> (r: BridgeResult<Option<u64>>)
    ensures
        r is Err ==> unrecovered(r->Err_0),
{
    read_score(conn, "SELECT CAST(ROUND(evidence_score * 1000000) AS INTEGER) FROM drift_decisions WHERE id = ?1", decision_id)
}

/// Boundary score in millionths, by boundary id.
pub fn boundary_data(conn: &rusqlite::Connection, boundary_id: &str) -> (r: BridgeResult<Option<u64>>)
    ensures
        r is Err ==> unrecovered(r->Err_0),
{
    read_score(conn, "SELECT CAST(ROUND(boundary_score * 1000000) AS INTEGER) FROM drift_boundaries WHERE id = ?1", boundary_id)
}

/// Whether a constraint is verified, by constraint id.
pub fn constraint_verified(conn: &rusqlite::Connection, constraint_id: &str) -> (r: BridgeResult<Option<bool>>)
    ensures
        r is Err ==> unrecovered(r->Err_0),
{
    settle_query(query_bool(conn, "SELECT verified FROM drift_constraints WHERE id = ?1", one_text(constraint_id).as_slice()))
}

/// The error-handling gap count of a module, by module path.
pub fn error_handling_gaps(conn: &rusqlite::Connection, module: &str) -> (r: BridgeResult<Option<u32>>)
    ensures
        r is Err ==> unrecovered(r->Err_0),
{
    settle_query(query_u32(conn, "SELECT gap_count FROM drift_error_handling WHERE module = ?1", one_text(module).as_slice()))
}

} // verus!
