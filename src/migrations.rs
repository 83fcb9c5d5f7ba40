//! Bridge schema versioning. The version is a marker row in
//! `bridge_metrics`, not the store's `user_version` pragma, which a peer
//! writer of the same file uses for its own versioning.

use vstd::prelude::*;
use vstd::string::StringExecFns;
use crate::errors::{BridgeError, BridgeResult, StoreFault};
use crate::sqlite::{fault_of, query_bool, query_u32, run, run_batch};
use crate::text::{decimal, push_decimal};

verus! {

/// The schema version this build migrates to.
pub const CURRENT_VERSION: u32 = 1;

/// The version 1 bridge tables.
pub const BRIDGE_TABLES_V1: &'static str = "
CREATE TABLE IF NOT EXISTS bridge_memories (
    id TEXT PRIMARY KEY,
    memory_type TEXT NOT NULL,
    content TEXT NOT NULL,
    summary TEXT NOT NULL DEFAULT '',
    confidence REAL NOT NULL DEFAULT 0.5,
    importance TEXT NOT NULL DEFAULT 'normal',
    tags TEXT NOT NULL DEFAULT '[]',
    linked_patterns TEXT NOT NULL DEFAULT '[]',
    created_at INTEGER NOT NULL DEFAULT (CAST(strftime('%s', 'now') AS INTEGER))
);
CREATE TABLE IF NOT EXISTS bridge_grounding_results (
    id INTEGER PRIMARY KEY AUTOINCREMENT,
    memory_id TEXT NOT NULL,
    grounding_score REAL NOT NULL,
    classification TEXT NOT NULL,
    evidence TEXT NOT NULL DEFAULT '[]',
    created_at INTEGER NOT NULL DEFAULT (CAST(strftime('%s', 'now') AS INTEGER))
);
CREATE INDEX IF NOT EXISTS idx_bridge_grounding_memory ON bridge_grounding_results(memory_id);
CREATE TABLE IF NOT EXISTS bridge_memory_links (
    id INTEGER PRIMARY KEY AUTOINCREMENT,
    memory_id TEXT NOT NULL,
    link_type TEXT NOT NULL,
    target_id TEXT NOT NULL,
    created_at INTEGER NOT NULL DEFAULT (CAST(strftime('%s', 'now') AS INTEGER))
);
CREATE TABLE IF NOT EXISTS bridge_event_log (
    id INTEGER PRIMARY KEY AUTOINCREMENT,
    event_type TEXT NOT NULL,
    memory_id TEXT,
    memory_type TEXT,
    confidence REAL,
    created_at INTEGER NOT NULL DEFAULT (CAST(strftime('%s', 'now') AS INTEGER))
);
CREATE TABLE IF NOT EXISTS bridge_metrics (
    id INTEGER PRIMARY KEY AUTOINCREMENT,
    metric_name TEXT NOT NULL,
    metric_value REAL NOT NULL,
    recorded_at INTEGER NOT NULL DEFAULT (CAST(strftime('%s', 'now') AS INTEGER))
);
CREATE INDEX IF NOT EXISTS idx_bridge_metrics_name ON bridge_metrics(metric_name, recorded_at);
";

/// The version of a store from what it holds: no metrics table is version
/// 0; else the latest marker; else a store with bridge tables but no marker
/// predates markers and is version 1; else 0.
pub open spec fn resolved_version(metrics_table: bool, marker: Option<u32>, memories_table: bool) -> u32 {
    if !metrics_table {
        0
    } else {
        match marker {
            Some(v) => v,
            None => if memories_table { 1 } else { 0 },
        }
    }
}

/// Resolves the schema version from what the store was found to hold.
pub fn resolve_schema_version(metrics_table: bool, marker: Option<u32>, memories_table: bool) -> (r: u32)
    ensures
        r == resolved_version(metrics_table, marker, memories_table),
{
    if !metrics_table {
        0
    } else {
        match marker {
            Some(v) => v,
            None => if memories_table { 1 } else { 0 },
        }
    }
}

/// A marker written by a migration step is what the version reads back as.
pub proof fn law_marker_read_back(v: u32, memories_table: bool)
    ensures
        resolved_version(true, Some(v), memories_table) == v,
{
}

/// A store with the bridge tables but no marker row reads as version 1,
/// which is current: migrating it runs no step and returns 1.
pub proof fn law_pre_marker_store_is_v1()
    ensures
        resolved_version(true, None, true) == 1,
        pending_steps_spec(resolved_version(true, None, true)).len() == 0,
        migrated_version(resolved_version(true, None, true)) == 1,
{
}

/// A fresh store reads as version 0; migrating it runs the one step from 0
/// and returns 1.
pub proof fn law_fresh_store_migrates_to_v1(memories_table: bool)
    ensures
        resolved_version(false, None, memories_table) == 0,
        pending_steps_spec(0) == seq![0u32],
        migrated_version(0) == 1,
{
    assert(pending_steps_spec(0) =~= seq![0u32]);
}

fn storage_error(e: rusqlite::Error) -> (r: BridgeError)
    ensures
        r is Storage,
{
    BridgeError::Storage { message: e.to_string() }
}

/// The outcome of the marker query: a row is the marker, no row is no
/// marker, and any other failure is a storage error with its message.
pub fn marker_from(read: Result<u32, StoreFault>) -> (r: BridgeResult<Option<u32>>)
    ensures
        r == match read {
            Ok(v) => Ok::<Option<u32>, BridgeError>(Some(v)),
            Err(StoreFault::NoRows) => Ok(None),
            Err(StoreFault::Failure(m)) => Err(BridgeError::Storage { message: m }),
        },
{
    match read {
        Ok(v) => Ok(Some(v)),
        Err(StoreFault::NoRows) => Ok(None),
        Err(StoreFault::Failure(m)) => Err(BridgeError::Storage { message: m }),
    }
}

/// Reads the bridge schema version of the store on `conn`.
pub fn get_schema_version(conn: &rusqlite::Connection) -> (r: BridgeResult<u32>)
    ensures
        r is Err ==> r->Err_0 is Storage,
{
    let no_params: Vec<String> = Vec::new();
    let metrics_table = match query_bool(
        conn,
        "SELECT COUNT(*) > 0 FROM sqlite_master WHERE type='table' AND name='bridge_metrics'",
        no_params.as_slice(),
    ) {
        Ok(b) => b,
        Err(e) => return Err(storage_error(e)),
    };
    if !metrics_table {
        return Ok(resolve_schema_version(false, None, false));
    }
    let read = match query_u32(
        conn,
        "SELECT CAST(metric_value AS INTEGER) FROM bridge_metrics WHERE metric_name = 'schema_version' ORDER BY recorded_at DESC, id DESC LIMIT 1",
        no_params.as_slice(),
    ) {
        Ok(v) => Ok(v),
        Err(e) => Err(fault_of(e)),
    };
    let marker = match marker_from(read) {
        Ok(m) => m,
        Err(e) => return Err(e),
    };
    if marker.is_some() {
        return Ok(resolve_schema_version(true, marker, false));
    }
    let memories_table = match query_bool(
        conn,
        "SELECT COUNT(*) > 0 FROM sqlite_master WHERE type='table' AND name='bridge_memories'",
        no_params.as_slice(),
    ) {
        Ok(b) => b,
        Err(e) => return Err(storage_error(e)),
    };
    Ok(resolve_schema_version(true, None, memories_table))
}

/// The event-log label of the step from `from` to `from + 1`.
pub open spec fn step_label_spec(from: nat) -> Seq<char> {
    "v"@ + decimal(from) + "_to_v"@ + decimal(from + 1)
}

/// Builds the label `v{from}_to_v{from + 1}`.
pub fn step_label(from: u32) -> (r: String)
    requires
        from < u32::MAX,
    ensures
        r@ == step_label_spec(from as nat),
{
    proof {
        reveal_strlit("v");
        reveal_strlit("_to_v");
    }
    let mut s = String::from_str("v");
    push_decimal(&mut s, from as usize);
    s.append("_to_v");
    push_decimal(&mut s, (from + 1) as usize);
    s
}

/// The statements of the step from `from` to `from + 1`.
pub fn step_statements(from: u32) -> (r: &'static str)
    requires
        from < CURRENT_VERSION,
    ensures
        from == 0 ==> r == BRIDGE_TABLES_V1,
{
    BRIDGE_TABLES_V1
}

/// Runs the step from `from` to `from + 1` in one transaction: its
/// statements, a marker row for `from + 1`, and a `schema_migration` event
/// labelled `v{from}_to_v{from + 1}`. On failure the transaction is rolled
/// back and the error names both versions.
fn apply_step(conn: &rusqlite::Connection, from: u32) -> (r: BridgeResult<()>)
    requires
        from < CURRENT_VERSION,
    ensures
        r is Err ==> (r->Err_0 is Schema && r->Err_0->Schema_from == from && r->Err_0->Schema_to == from + 1),
{
    let no_params: Vec<String> = Vec::new();
    if let Err(e) = run(conn, "BEGIN", &no_params) {
        return Err(BridgeError::Schema { from, to: from + 1, cause: e.to_string() });
    }
    let mut version_param: Vec<String> = Vec::new();
    let mut version_text = String::new();
    push_decimal(&mut version_text, (from + 1) as usize);
    version_param.push(version_text);
    let mut label_param: Vec<String> = Vec::new();
    label_param.push(step_label(from));
    let outcome = match run_batch(conn, step_statements(from)) {
        Err(e) => Err(e),
        Ok(()) => match run(
            conn,
            "INSERT INTO bridge_metrics (metric_name, metric_value) VALUES ('schema_version', ?1)",
            &version_param,
        ) {
            Err(e) => Err(e),
            Ok(_) => match run(
                conn,
                "INSERT INTO bridge_event_log (event_type, memory_type) VALUES ('schema_migration', ?1)",
                &label_param,
            ) {
                Err(e) => Err(e),
                Ok(_) => run(conn, "COMMIT", &no_params),
            },
        },
    };
    match outcome {
        Ok(_) => Ok(()),
        Err(e) => {
            let _ = run(conn, "ROLLBACK", &no_params);
            Err(BridgeError::Schema { from, to: from + 1, cause: e.to_string() })
        },
    }
}

/// The steps that bring a store at `current` to `CURRENT_VERSION`: each
/// step is named by the version it starts from, in ascending order.
pub open spec fn pending_steps_spec(current: u32) -> Seq<u32> {
    if current >= CURRENT_VERSION {
        Seq::empty()
    } else {
        Seq::new((CURRENT_VERSION - current) as nat, |i: int| (current + i) as u32)
    }
}

/// Lists the steps from `current` up to `CURRENT_VERSION`.
pub fn pending_steps(current: u32) -> (r: Vec<u32>)
    ensures
        r@ == pending_steps_spec(current),
{
    let mut steps: Vec<u32> = Vec::new();
    if current >= CURRENT_VERSION {
        assert(steps@ =~= pending_steps_spec(current));
        return steps;
    }
    let mut v = current;
    while v < CURRENT_VERSION
        invariant
            current <= v <= CURRENT_VERSION,
            current < CURRENT_VERSION,
            steps@ =~= Seq::new((v - current) as nat, |i: int| (current + i) as u32),
        decreases CURRENT_VERSION - v,
    {
        steps.push(v);
        v += 1;
    }
    assert(steps@ =~= pending_steps_spec(current));
    steps
}

/// The version a migration from `current` ends at: a store at or past
/// `CURRENT_VERSION` is left where it is, any other reaches it.
pub open spec fn migrated_version(current: u32) -> u32 {
    if current >= CURRENT_VERSION { current } else { CURRENT_VERSION }
}

/// Migrates a store read as being at version `current`. At or past
/// `CURRENT_VERSION` it returns `current` and issues no statement.
/// Otherwise it applies each of `pending_steps(current)` in order, each in
/// its own transaction, then reads the version back; a read-back other than
/// `CURRENT_VERSION` is a schema error over the whole span.
pub fn migrate_from(conn: &rusqlite::Connection, current: u32) -> (r: BridgeResult<u32>)
    ensures
        current >= CURRENT_VERSION ==> r == Ok::<u32, BridgeError>(current),
        r is Ok ==> r->Ok_0 == migrated_version(current),
        r is Err ==> (r->Err_0 is Storage || (r->Err_0 is Schema && current <= r->Err_0->Schema_from
            && r->Err_0->Schema_from < r->Err_0->Schema_to && r->Err_0->Schema_to <= CURRENT_VERSION)),
{
    if current >= CURRENT_VERSION {
        return Ok(current);
    }
    let steps = pending_steps(current);
    let mut i: usize = 0;
    while i < steps.len()
        invariant
            0 <= i <= steps@.len(),
            current < CURRENT_VERSION,
            steps@ == pending_steps_spec(current),
        decreases steps@.len() - i,
    {
        let from = steps[i];
        if let Err(e) = apply_step(conn, from) {
            return Err(e);
        }
        i += 1;
    }
    let reached = match get_schema_version(conn) {
        Ok(v) => v,
        Err(e) => return Err(e),
    };
    if reached == CURRENT_VERSION {
        Ok(reached)
    } else {
        let mut cause = String::from_str("version reads back as ");
        push_decimal(&mut cause, reached as usize);
        Err(BridgeError::Schema { from: current, to: CURRENT_VERSION, cause })
    }
}

/// Brings the store up to `CURRENT_VERSION` (see `migrate_from`) from the
/// version it reads as. Whatever the store held, success ends at
/// `CURRENT_VERSION` or at the later version the store already had.
pub fn migrate(conn: &rusqlite::Connection) -> (r: BridgeResult<u32>)
    ensures
        r is Ok ==> r->Ok_0 >= CURRENT_VERSION,
        r is Err ==> (r->Err_0 is Storage || (r->Err_0 is Schema
            && r->Err_0->Schema_from < r->Err_0->Schema_to && r->Err_0->Schema_to <= CURRENT_VERSION)),
{
    let current = match get_schema_version(conn) {
        Ok(v) => v,
        Err(e) => return Err(e),
    };
    migrate_from(conn, current)
}

/// Migrating twice changes nothing the second time: the version the first
/// migration ends at is left where it is.
pub proof fn law_migrate_idempotent(current: u32)
    ensures
        migrated_version(migrated_version(current)) == migrated_version(current),
        pending_steps_spec(migrated_version(current)).len() == 0,
{
}

/// Migration always ends at or past `CURRENT_VERSION`, and a store below it
/// ends exactly there after one step per version, in ascending order.
pub proof fn law_migrate_reaches_current(current: u32)
    ensures
        migrated_version(current) >= CURRENT_VERSION,
        current < CURRENT_VERSION ==> migrated_version(current) == CURRENT_VERSION
            && pending_steps_spec(current).len() == CURRENT_VERSION - current
            && forall|i: int| 0 <= i < pending_steps_spec(current).len()
                ==> #[trigger] pending_steps_spec(current)[i] == current + i,
{
}

} // verus!
