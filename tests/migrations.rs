use cortex_drift_bridge::migrations::{
    get_schema_version, marker_from, migrate, migrate_from, pending_steps, resolve_schema_version, step_label,
    BRIDGE_TABLES_V1, CURRENT_VERSION,
};
use cortex_drift_bridge::errors::{BridgeError, StoreFault};
use rusqlite::Connection;

fn fresh_db() -> Connection {
    Connection::open_in_memory().unwrap()
}

fn count(conn: &Connection, sql: &str) -> i64 {
    conn.query_row(sql, [], |row| row.get(0)).unwrap()
}

#[test]
fn test_fresh_db_version_is_zero() {
    let conn = fresh_db();
    assert_eq!(get_schema_version(&conn).unwrap(), 0);
}

#[test]
fn test_migrate_from_zero_to_v1() {
    let conn = fresh_db();
    let version = migrate(&conn).unwrap();
    assert_eq!(version, 1);

    let count: i64 = conn
        .query_row(
            "SELECT COUNT(*) FROM sqlite_master WHERE type='table' AND name LIKE 'bridge_%'",
            [],
            |row| row.get(0),
        )
        .unwrap();
    assert_eq!(count, 5, "Expected 5 bridge tables");
}

#[test]
fn test_migrate_idempotent() {
    let conn = fresh_db();
    let v1 = migrate(&conn).unwrap();
    let v2 = migrate(&conn).unwrap();
    assert_eq!(v1, v2);
    assert_eq!(v2, 1);
}

#[test]
fn test_pre_migration_db_detected_as_v1() {
    let conn = fresh_db();
    conn.execute_batch(BRIDGE_TABLES_V1).unwrap();
    assert_eq!(get_schema_version(&conn).unwrap(), 1);
}

#[test]
fn test_migration_logged_in_event_log() {
    let conn = fresh_db();
    migrate(&conn).unwrap();

    let count: i64 = conn
        .query_row(
            "SELECT COUNT(*) FROM bridge_event_log WHERE event_type = 'schema_migration'",
            [],
            |row| row.get(0),
        )
        .unwrap();
    assert_eq!(count, 1);
}

#[test]
fn version_after_migrate_is_current() {
    let conn = fresh_db();
    migrate(&conn).unwrap();
    assert_eq!(get_schema_version(&conn).unwrap(), CURRENT_VERSION);
}

#[test]
fn migrate_twice_logs_one_event_per_step() {
    let conn = fresh_db();
    migrate(&conn).unwrap();
    migrate(&conn).unwrap();
    let n = count(&conn, "SELECT COUNT(*) FROM bridge_event_log WHERE event_type = 'schema_migration'");
    assert_eq!(n, CURRENT_VERSION as i64);
    let label: String = conn
        .query_row(
            "SELECT memory_type FROM bridge_event_log WHERE event_type = 'schema_migration'",
            [],
            |row| row.get(0),
        )
        .unwrap();
    assert_eq!(label, "v0_to_v1");
}

#[test]
fn fresh_migration_writes_marker_row() {
    let conn = fresh_db();
    migrate(&conn).unwrap();
    let n = count(&conn, "SELECT COUNT(*) FROM bridge_metrics WHERE metric_name = 'schema_version'");
    assert_eq!(n, 1);
}

#[test]
fn pre_marker_store_migrates_without_new_events() {
    let conn = fresh_db();
    conn.execute_batch(BRIDGE_TABLES_V1).unwrap();
    conn.execute("INSERT INTO bridge_memories (id, memory_type, content) VALUES ('m1', 'insight', 'kept')", [])
        .unwrap();
    assert_eq!(migrate(&conn).unwrap(), 1);
    assert_eq!(count(&conn, "SELECT COUNT(*) FROM bridge_event_log"), 0);
    assert_eq!(count(&conn, "SELECT COUNT(*) FROM bridge_memories"), 1);
}

#[test]
fn metrics_table_without_memories_is_version_zero() {
    let conn = fresh_db();
    conn.execute_batch(
        "CREATE TABLE bridge_metrics (id INTEGER PRIMARY KEY, metric_name TEXT, metric_value REAL, recorded_at INTEGER)",
    )
    .unwrap();
    assert_eq!(get_schema_version(&conn).unwrap(), 0);
}

#[test]
fn resolve_schema_version_cases() {
    assert_eq!(resolve_schema_version(false, Some(7), true), 0);
    assert_eq!(resolve_schema_version(true, Some(7), false), 7);
    assert_eq!(resolve_schema_version(true, None, true), 1);
    assert_eq!(resolve_schema_version(true, None, false), 0);
}

#[test]
fn step_label_renders_versions() {
    assert_eq!(step_label(0), "v0_to_v1");
    assert_eq!(step_label(41), "v41_to_v42");
}

#[test]
fn second_migrate_writes_nothing() {
    let conn = fresh_db();
    migrate(&conn).unwrap();
    let events = count(&conn, "SELECT COUNT(*) FROM bridge_event_log");
    let markers = count(&conn, "SELECT COUNT(*) FROM bridge_metrics");
    assert_eq!(migrate(&conn).unwrap(), CURRENT_VERSION);
    assert_eq!(count(&conn, "SELECT COUNT(*) FROM bridge_event_log"), events);
    assert_eq!(count(&conn, "SELECT COUNT(*) FROM bridge_metrics"), markers);
}

#[test]
fn migrate_from_current_touches_nothing() {
    let conn = fresh_db();
    assert_eq!(migrate_from(&conn, 1).unwrap(), 1);
    assert_eq!(migrate_from(&conn, 4).unwrap(), 4);
    assert_eq!(count(&conn, "SELECT COUNT(*) FROM sqlite_master"), 0);
}

#[test]
fn pending_steps_ascend_to_current() {
    assert_eq!(pending_steps(0), vec![0]);
    assert_eq!(pending_steps(1), Vec::<u32>::new());
    assert_eq!(pending_steps(9), Vec::<u32>::new());
}

#[test]
fn marker_outcomes() {
    assert_eq!(marker_from(Ok(3)).unwrap(), Some(3));
    assert_eq!(marker_from(Err(StoreFault::NoRows)).unwrap(), None);
    match marker_from(Err(StoreFault::Failure("disk I/O error".to_string()))) {
        Err(BridgeError::Storage { message }) => assert_eq!(message, "disk I/O error"),
        _ => panic!("expected a storage error"),
    }
}
