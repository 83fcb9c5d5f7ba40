use cortex_drift_bridge::cross_db::{
    count_from_store, count_matching_patterns, count_patterns_statement, latest_scan_timestamp, with_drift_attached,
    AttachGuard,
};
use cortex_drift_bridge::drift_queries::{constraint_verified, error_handling_gaps, settle_reading};
use cortex_drift_bridge::errors::{BridgeError, StoreFault};
use cortex_drift_bridge::text::read_only_uri;
use rusqlite::Connection;

fn drift_file(name: &str, sql: &str) -> String {
    let path = format!("/tmp/cortex_drift_bridge_{name}.db");
    let conn = Connection::open(&path).unwrap();
    conn.execute_batch(
        "DROP TABLE IF EXISTS drift_patterns;
         DROP TABLE IF EXISTS drift_scans;
         DROP TABLE IF EXISTS drift_constraints;",
    )
    .unwrap();
    conn.execute_batch(sql).unwrap();
    path
}

fn databases(conn: &Connection) -> Vec<String> {
    let mut stmt = conn.prepare("PRAGMA database_list").unwrap();
    stmt.query_map([], |r| r.get::<_, String>(1)).unwrap().map(|r| r.unwrap()).collect()
}

#[test]
fn empty_id_list_counts_zero_without_a_statement() {
    let conn = Connection::open_in_memory().unwrap();
    // No store is attached: any statement against `drift` would fail.
    assert_eq!(count_matching_patterns(&conn, &[]).unwrap(), 0);
}

#[test]
fn counting_statement_has_one_placeholder_per_id() {
    assert_eq!(count_patterns_statement(1), "SELECT COUNT(*) FROM drift.drift_patterns WHERE id IN (?1)");
    assert_eq!(
        count_patterns_statement(12),
        "SELECT COUNT(*) FROM drift.drift_patterns WHERE id IN (?1, ?2, ?3, ?4, ?5, ?6, ?7, ?8, ?9, ?10, ?11, ?12)"
    );
}

#[test]
fn attached_counts_and_detaches() {
    let path = drift_file(
        "count",
        "CREATE TABLE drift_patterns (id TEXT PRIMARY KEY, confidence REAL, occurrence_rate REAL);
         INSERT INTO drift_patterns VALUES ('p1', 0.9, 0.4), ('p2', 0.5, 0.1);",
    );
    let conn = Connection::open_in_memory().unwrap();
    let n = with_drift_attached(&conn, &path, |c| {
        assert!(databases(c).contains(&"drift".to_string()));
        count_matching_patterns(c, &["p1".to_string(), "p3".to_string(), "p2".to_string()])
    })
    .unwrap();
    assert_eq!(n, 2);
    assert!(!databases(&conn).contains(&"drift".to_string()));
}

#[test]
fn detached_after_closure_error() {
    let conn = Connection::open_in_memory().unwrap();
    let r: Result<(), BridgeError> = with_drift_attached(&conn, &drift_file("closure_error", ""), |_| {
        Err(BridgeError::Configuration { field: "drift_db_path".to_string() })
    });
    assert!(matches!(r, Err(BridgeError::Configuration { .. })));
    assert!(!databases(&conn).contains(&"drift".to_string()));
}

#[test]
fn overlapping_attach_fails() {
    let conn = Connection::open_in_memory().unwrap();
    let path = drift_file("overlap", "");
    let g = AttachGuard::attach(&conn, &path, "drift").unwrap();
    let second = AttachGuard::attach(&conn, &path, "drift");
    assert!(matches!(second, Err(BridgeError::AttachFailed { .. })));
    g.release();
    assert!(!databases(&conn).contains(&"drift".to_string()));
}

#[test]
fn scan_timestamp_without_scan_table_is_none() {
    let conn = Connection::open_in_memory().unwrap();
    let ts = with_drift_attached(&conn, &drift_file("no_scans", ""), |c| latest_scan_timestamp(c)).unwrap();
    assert_eq!(ts, None);
}

#[test]
fn scan_timestamp_is_the_maximum() {
    let path = drift_file(
        "scans",
        "CREATE TABLE drift_scans (created_at INTEGER);
         INSERT INTO drift_scans VALUES (10), (30), (20);",
    );
    let conn = Connection::open_in_memory().unwrap();
    let ts = with_drift_attached(&conn, &path, |c| latest_scan_timestamp(c)).unwrap();
    assert_eq!(ts, Some(30));
}

#[test]
fn point_queries_read_rows() {
    let conn = Connection::open_in_memory().unwrap();
    conn.execute_batch(
        "CREATE TABLE drift_constraints (id TEXT PRIMARY KEY, verified INTEGER);
         INSERT INTO drift_constraints VALUES ('c1', 1), ('c2', 0);
         CREATE TABLE drift_error_handling (module TEXT PRIMARY KEY, gap_count INTEGER);
         INSERT INTO drift_error_handling VALUES ('src/a.rs', 4);",
    )
    .unwrap();
    assert_eq!(constraint_verified(&conn, "c1").unwrap(), Some(true));
    assert_eq!(constraint_verified(&conn, "c2").unwrap(), Some(false));
    assert_eq!(constraint_verified(&conn, "zz").unwrap(), None);
    assert_eq!(error_handling_gaps(&conn, "src/a.rs").unwrap(), Some(4));
    assert_eq!(error_handling_gaps(&conn, "src/b.rs").unwrap(), None);
}

#[test]
fn point_queries_on_missing_tables_read_none() {
    let conn = Connection::open_in_memory().unwrap();
    assert_eq!(constraint_verified(&conn, "c1").unwrap(), None);
    assert_eq!(error_handling_gaps(&conn, "m").unwrap(), None);
}

#[test]
fn error_policy() {
    assert_eq!(settle_reading::<u32>(Ok(3)).unwrap(), Some(3));
    assert_eq!(settle_reading::<u32>(Err(StoreFault::NoRows)).unwrap(), None);
    let missing = StoreFault::Failure("no such table: drift_dna".to_string());
    assert_eq!(settle_reading::<u32>(Err(missing)).unwrap(), None);
    let other = StoreFault::Failure("disk I/O error".to_string());
    match settle_reading::<u32>(Err(other)) {
        Err(BridgeError::Storage { message }) => assert_eq!(message, "disk I/O error"),
        _ => panic!("expected a storage error"),
    }
}

#[test]
fn attachment_is_read_only() {
    let path = drift_file(
        "read_only",
        "CREATE TABLE drift_constraints (id TEXT PRIMARY KEY, verified INTEGER);
         INSERT INTO drift_constraints VALUES ('c1', 1);",
    );
    let conn = Connection::open_in_memory().unwrap();
    let (reading, write_failed) = with_drift_attached(&conn, &path, |c| {
        let reading = constraint_verified(c, "c1");
        let write = c.execute("INSERT INTO drift.drift_constraints VALUES ('c2', 0)", []);
        Ok((reading.unwrap(), write.is_err()))
    })
    .unwrap();
    assert_eq!(reading, Some(true));
    assert!(write_failed);
    assert!(!databases(&conn).contains(&"drift".to_string()));
}

#[test]
fn missing_store_fails_to_attach() {
    let conn = Connection::open_in_memory().unwrap();
    let r: Result<(), BridgeError> = with_drift_attached(&conn, "/nonexistent/dir/drift.db", |_| Ok(()));
    match r {
        Err(BridgeError::AttachFailed { path, .. }) => assert_eq!(path, "/nonexistent/dir/drift.db"),
        _ => panic!("expected an attach failure"),
    }
}

#[test]
fn read_only_uri_escapes_path() {
    assert_eq!(read_only_uri("/tmp/a.db"), "file:/tmp/a.db?mode=ro");
    assert_eq!(read_only_uri("/x/50%?#.db"), "file:/x/50%25%3f%23.db?mode=ro");
}

#[test]
fn negative_store_count_reads_zero() {
    assert_eq!(count_from_store(-3), 0);
    assert_eq!(count_from_store(7), 7);
}

#[test]
fn dropping_the_guard_detaches() {
    let conn = Connection::open_in_memory().unwrap();
    {
        let _g = AttachGuard::attach(&conn, &drift_file("dropped", ""), "drift").unwrap();
        assert!(databases(&conn).contains(&"drift".to_string()));
    }
    assert!(!databases(&conn).contains(&"drift".to_string()));
}
