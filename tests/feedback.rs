use cortex_drift_bridge::feedback::{
    feedback_action_to_deltas, feedback_adjustments, feedback_stats_checked, tally_feedback_stats, FeedbackRow,
    DELTA_SCALE,
};
use rusqlite::Connection;

fn row(action: &str, reason: Option<&str>) -> FeedbackRow {
    FeedbackRow {
        violation_id: "v1".to_string(),
        pattern_id: "q1".to_string(),
        detector_id: "d1".to_string(),
        action: action.to_string(),
        dismissal_reason: reason.map(|r| r.to_string()),
        reason: None,
        author: None,
        created_at: 0,
    }
}

fn deltas(action: &str, reason: Option<&str>) -> (u32, u32) {
    feedback_action_to_deltas(&action.to_string(), &reason.map(|r| r.to_string()))
}

#[test]
fn delta_table() {
    assert_eq!(DELTA_SCALE, 100);
    assert_eq!(deltas("fix", None), (100, 0));
    assert_eq!(deltas("dismiss", Some("false_positive")), (0, 50));
    assert_eq!(deltas("dismiss", Some("not_applicable")), (0, 25));
    assert_eq!(deltas("dismiss", Some("wont_fix")), (0, 0));
    assert_eq!(deltas("dismiss", Some("duplicate")), (0, 0));
    assert_eq!(deltas("dismiss", Some("other")), (0, 25));
    assert_eq!(deltas("dismiss", None), (0, 25));
    assert_eq!(deltas("suppress", None), (0, 10));
    assert_eq!(deltas("escalate", None), (50, 0));
    assert_eq!(deltas("unknown", None), (0, 0));
}

#[test]
fn adjustments_for_pattern_rows() {
    let rows = vec![row("fix", None), row("dismiss", Some("false_positive")), row("suppress", None)];
    assert_eq!(feedback_adjustments(&rows), vec![(100, 0), (0, 50), (0, 10)]);
}

#[test]
fn stats_for_pattern_rows() {
    let rows = vec![("dismiss".to_string(), 1), ("fix".to_string(), 1), ("suppress".to_string(), 1)];
    let s = tally_feedback_stats(&rows);
    assert_eq!(s.total_count, 3);
    assert_eq!(s.fix_count, 1);
    assert_eq!(s.dismiss_count, 1);
    assert_eq!(s.suppress_count, 1);
    assert_eq!(s.escalate_count, 0);
}

#[test]
fn stats_count_unknown_actions_in_total_only() {
    let rows = vec![("escalate".to_string(), 4), ("other".to_string(), 6)];
    let s = tally_feedback_stats(&rows);
    assert_eq!(s.total_count, 10);
    assert_eq!(s.escalate_count, 4);
    assert_eq!(s.fix_count, 0);
}

#[test]
fn stored_feedback_round_trips_to_adjustments() {
    let conn = Connection::open_in_memory().unwrap();
    conn.execute_batch(
        "CREATE TABLE feedback (violation_id TEXT, pattern_id TEXT, detector_id TEXT, action TEXT,
         dismissal_reason TEXT, reason TEXT, author TEXT, created_at INTEGER)",
    )
    .unwrap();
    let inserts = [
        ("fix", None, 1),
        ("dismiss", Some("false_positive"), 2),
        ("dismiss", Some("not_applicable"), 3),
        ("dismiss", Some("wont_fix"), 4),
        ("dismiss", Some("duplicate"), 5),
        ("dismiss", None, 6),
        ("suppress", None, 7),
        ("escalate", None, 8),
        ("bogus", None, 9),
    ];
    for (action, reason, t) in inserts.iter() {
        conn.execute(
            "INSERT INTO feedback VALUES ('v', 'q1', 'd', ?1, ?2, NULL, NULL, ?3)",
            (action, reason, t),
        )
        .unwrap();
    }
    let mut stmt = conn
        .prepare("SELECT action, dismissal_reason, created_at FROM feedback WHERE pattern_id = 'q1' ORDER BY created_at")
        .unwrap();
    let rows: Vec<FeedbackRow> = stmt
        .query_map([], |r| {
            let mut f = row(&r.get::<_, String>(0)?, None);
            f.dismissal_reason = r.get(1)?;
            f.created_at = r.get(2)?;
            Ok(f)
        })
        .unwrap()
        .collect::<Result<_, _>>()
        .unwrap();
    assert_eq!(
        feedback_adjustments(&rows),
        vec![(100, 0), (0, 50), (0, 25), (0, 0), (0, 0), (0, 25), (0, 10), (50, 0), (0, 0)]
    );
}

#[test]
fn checked_stats_detect_overflow() {
    let rows = vec![("fix".to_string(), u32::MAX), ("dismiss".to_string(), 1)];
    assert!(feedback_stats_checked(&rows).is_none());
    let ok = vec![("fix".to_string(), 2), ("dismiss".to_string(), 3)];
    let s = feedback_stats_checked(&ok).unwrap();
    assert_eq!((s.total_count, s.fix_count, s.dismiss_count), (5, 2, 3));
}
