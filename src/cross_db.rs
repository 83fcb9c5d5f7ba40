//! Cross-store queries: the drift store is attached to the bridge
//! connection under an alias for the span of a read, then detached.
//! Writes across the attachment are not atomic, so the bridge only reads
//! through it.

use vstd::prelude::*;
use vstd::string::StringExecFns;
use crate::drift_queries::{settle_reading, unrecovered};
use crate::errors::{BridgeError, BridgeResult};
use crate::sqlite::{fault_of, query_i64, query_nullable_i64, run};
use crate::text::{decimal, one_text, push_decimal, read_only_uri, read_only_uri_spec};

verus! {

/// A live read-only `ATTACH DATABASE <uri> AS <alias>` on a connection. `release`
/// detaches it.
pub struct AttachGuard<'a> {
    conn: &'a rusqlite::Connection,
    path: String,
    target: String,
    alias: String,
    detach_params: Vec<String>,
}

impl<'a> AttachGuard<'a> {
    pub closed spec fn alias(&self) -> Seq<char> {
        self.alias@
    }

    pub closed spec fn path(&self) -> Seq<char> {
        self.path@
    }

    /// The URI the store was attached by.
    pub closed spec fn target(&self) -> Seq<char> {
        self.target@
    }

    /// Attaches the store at `path` under `alias`, read-only: the store is
    /// named by its read-only URI, and URI and alias are passed as statement
    /// parameters, so no write can go through the alias. Fails with
    /// `AttachFailed` naming `path` when the store rejects the attachment
    /// (unreadable file, alias in use).
    pub fn attach(conn: &'a rusqlite::Connection, path: &str, alias: &str) -> (r: BridgeResult<AttachGuard<'a>>)
        ensures
            r is Ok ==> r->Ok_0.alias() == alias@ && r->Ok_0.path() == path@
                && r->Ok_0.target() == read_only_uri_spec(path@),
            r is Err ==> (r->Err_0 is AttachFailed && r->Err_0->AttachFailed_path@ == path@),
    {
        let target = read_only_uri(path);
        let mut params: Vec<String> = Vec::new();
        params.push(target);
        params.push(String::from_str(alias));
        match run(conn, "ATTACH DATABASE ?1 AS ?2", &params) {
            Ok(_) => Ok(AttachGuard {
                conn,
                path: String::from_str(path),
                target: read_only_uri(path),
                alias: String::from_str(alias),
                detach_params: one_text(alias),
            }),
            Err(e) => Err(BridgeError::AttachFailed { path: String::from_str(path), reason: e.to_string() }),
        }
    }

    /// Detaches the alias now; the same happens when the guard goes out of
    /// scope. A failed detach is not reported: it must not mask the outcome
    /// of the work done under the attachment.
    pub fn release(self) {
    }
}

impl<'a> Drop for AttachGuard<'a> {
    fn drop(&mut self)
        opens_invariants none
        no_unwind
    {
        let _ = run(self.conn, "DETACH DATABASE ?1", &self.detach_params);
    }
}

/// Runs `query_fn` on `bridge_conn` with the drift store at `drift_db_path`
/// attached read-only as `drift`, and detaches it again before returning. Either the
/// attachment fails and `query_fn` does not run, or the result is that of
/// `query_fn`; a failed detach does not mask it.
pub fn with_drift_attached<F, T>(bridge_conn: &rusqlite::Connection, drift_db_path: &str, query_fn: F) -> (r: BridgeResult<T>)
    where
        F: FnOnce(&rusqlite::Connection) -> BridgeResult<T>,
    requires
        query_fn.requires((bridge_conn,)),
    ensures
        (r is Err && r->Err_0 is AttachFailed && r->Err_0->AttachFailed_path@ == drift_db_path@)
            || query_fn.ensures((bridge_conn,), r),
{
    let guard = match AttachGuard::attach(bridge_conn, drift_db_path, "drift") {
        Ok(g) => g,
        Err(e) => return Err(e),
    };
    let r = query_fn(bridge_conn);
    guard.release();
    r
}

/// `?1, ?2, ..., ?n`.
pub open spec fn placeholders(n: nat) -> Seq<char>
    decreases n,
{
    if n == 0 {
        Seq::empty()
    } else if n == 1 {
        "?1"@
    } else {
        placeholders((n - 1) as nat) + ", "@ + "?"@ + decimal(n)
    }
}

/// The statement that counts drift patterns among `n` positional ids.
pub open spec fn count_patterns_sql(n: nat) -> Seq<char> {
    "SELECT COUNT(*) FROM drift.drift_patterns WHERE id IN ("@ + placeholders(n) + ")"@
}

/// Builds the counting statement for `n` ids, one positional placeholder each.
pub fn count_patterns_statement(n: usize) -> (r: String)
    requires
        n > 0,
    ensures
        r@ == count_patterns_sql(n as nat),
{
    proof {
        reveal_strlit("?1");
        reveal_strlit("?");
        reveal_strlit(", ");
        reveal_strlit("1");
    }
    let mut list = String::from_str("?1");
    let mut i: usize = 1;
    assert(decimal(1) =~= seq!['1']);
    assert(list@ == placeholders(1));
    while i < n
        invariant
            1 <= i <= n,
            list@ == placeholders(i as nat),
        decreases n - i,
    {
        i += 1;
        list.append(", ");
        list.append("?");
        push_decimal(&mut list, i);
    }
    let mut sql = String::from_str("SELECT COUNT(*) FROM drift.drift_patterns WHERE id IN (");
    sql.append(list.as_str());
    sql.append(")");
    sql
}

/// A count as the store reported it, with a negative count read as zero.
pub fn count_from_store(c: i64) -> (r: u64)
    ensures
        r == (if c < 0 { 0 } else { c as int }),
{
    if c < 0 { 0 } else { c as u64 }
}

/// Counts the drift patterns whose id is among `pattern_ids`; the drift
/// store must be attached as `drift`. No ids is zero, with no statement run.
pub fn count_matching_patterns(conn: &rusqlite::Connection, pattern_ids: &[String]) -> (r: BridgeResult<u64>)
    ensures
        pattern_ids@.len() == 0 ==> r == Ok::<u64, BridgeError>(0),
        r is Err ==> r->Err_0 is Storage,
{
    if pattern_ids.len() == 0 {
        return Ok(0);
    }
    let sql = count_patterns_statement(pattern_ids.len());
    match query_i64(conn, sql.as_str(), pattern_ids) {
        Ok(c) => Ok(count_from_store(c)),
        Err(e) => Err(BridgeError::Storage { message: e.to_string() }),
    }
}

/// The latest scan time in the drift store (attached as `drift`): `None`
/// when there are no scans or the store has no scan table.
pub fn latest_scan_timestamp(conn: &rusqlite::Connection) -> (r: BridgeResult<Option<i64>>)
    ensures
        r is Err ==> unrecovered(r->Err_0),
{
    let no_params: Vec<String> = Vec::new();
    let settled_max = match query_nullable_i64(conn, "SELECT MAX(created_at) FROM drift.drift_scans", no_params.as_slice()) {
        Ok(ts) => settle_reading(Ok(ts)),
        Err(e) => settle_reading::<Option<i64>>(Err(fault_of(e))),
    };
    match settled_max {
        Ok(Some(ts)) => Ok(ts),
        Ok(None) => Ok(None),
        Err(e) => Err(e),
    }
}

} // verus!
