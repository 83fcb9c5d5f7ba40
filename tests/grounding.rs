use cortex_drift_bridge::data_source::GroundingDataSource;
use cortex_drift_bridge::grounding::{
    build_snapshot, evaluate_grounding, normalize, EvidenceReading, GroundingConfig, GroundingVerdict, SCORE_SCALE,
};

fn cfg() -> GroundingConfig {
    GroundingConfig::default()
}

#[test]
fn source_tags() {
    assert_eq!(GroundingDataSource::Patterns.as_str(), "patterns");
    assert_eq!(GroundingDataSource::TestTopology.as_str(), "test_topology");
    assert_eq!(GroundingDataSource::CallGraph.as_str(), "call_graph");
    let all = GroundingDataSource::all();
    assert_eq!(all.len(), 12);
    assert_eq!(all[0], GroundingDataSource::Patterns);
    assert_eq!(all[11], GroundingDataSource::Security);
}

#[test]
fn pattern_and_constraint_validate() {
    let rs = [Some(EvidenceReading::Score(900_000)), Some(EvidenceReading::Verified(true))];
    let o = evaluate_grounding(&rs, &cfg());
    assert_eq!(o.verdict, GroundingVerdict::Validated);
    assert_eq!(o.score, 950_000);
    assert_eq!(o.supported, 2);
    assert!(!o.contradiction);
}

#[test]
fn half_support_low_score_invalidates() {
    let rs = [Some(EvidenceReading::Score(100_000)), None];
    let o = evaluate_grounding(&rs, &cfg());
    assert_eq!(o.verdict, GroundingVerdict::Invalidated);
    assert_eq!(o.score, 100_000);
}

#[test]
fn all_sources_missing_is_insufficient() {
    let rs = [None, None, None];
    let o = evaluate_grounding(&rs, &cfg());
    assert_eq!(o.verdict, GroundingVerdict::InsufficientData);
    assert_eq!(o.score, 0);
}

#[test]
fn no_sources_is_not_groundable() {
    let o = evaluate_grounding(&[], &cfg());
    assert_eq!(o.verdict, GroundingVerdict::NotGroundable);
}

#[test]
fn low_support_is_weak() {
    let rs = [Some(EvidenceReading::Score(1_000_000)), None, None];
    assert_eq!(evaluate_grounding(&rs, &cfg()).verdict, GroundingVerdict::Weak);
}

#[test]
fn middle_scores() {
    let partial = [Some(EvidenceReading::Score(600_000))];
    assert_eq!(evaluate_grounding(&partial, &cfg()).verdict, GroundingVerdict::Partial);
    let weak = [Some(EvidenceReading::Score(300_000))];
    assert_eq!(evaluate_grounding(&weak, &cfg()).verdict, GroundingVerdict::Weak);
    let edge = [Some(EvidenceReading::Score(750_000))];
    assert_eq!(evaluate_grounding(&edge, &cfg()).verdict, GroundingVerdict::Validated);
}

#[test]
fn gaps_are_inverted() {
    assert_eq!(normalize(EvidenceReading::Gaps(0), 10), SCORE_SCALE);
    assert_eq!(normalize(EvidenceReading::Gaps(3), 10), 700_000);
    assert_eq!(normalize(EvidenceReading::Gaps(10), 10), 0);
    assert_eq!(normalize(EvidenceReading::Gaps(25), 10), 0);
    assert_eq!(normalize(EvidenceReading::Verified(false), 10), 0);
    assert_eq!(normalize(EvidenceReading::Score(2_000_000), 10), SCORE_SCALE);
}

#[test]
fn opposite_readings_contradict() {
    let rs = [Some(EvidenceReading::Score(900_000)), Some(EvidenceReading::Verified(false))];
    let o = evaluate_grounding(&rs, &cfg());
    assert!(o.contradiction);
    assert_eq!(o.verdict, GroundingVerdict::Weak);
    let half = [Some(EvidenceReading::Score(500_000)), Some(EvidenceReading::Score(900_000))];
    assert!(!evaluate_grounding(&half, &cfg()).contradiction);
}

#[test]
fn snapshot_counts_sum_to_total() {
    let c = cfg();
    let outcomes = vec![
        evaluate_grounding(&[Some(EvidenceReading::Score(900_000))], &c),
        evaluate_grounding(&[Some(EvidenceReading::Score(100_000))], &c),
        evaluate_grounding(&[], &c),
        evaluate_grounding(&[None], &c),
        evaluate_grounding(&[Some(EvidenceReading::Score(900_000)), Some(EvidenceReading::Verified(false))], &c),
    ];
    let s = build_snapshot(&outcomes, 12);
    assert_eq!(s.total_checked, 5);
    assert_eq!(s.validated, 1);
    assert_eq!(s.invalidated, 1);
    assert_eq!(s.not_groundable, 1);
    assert_eq!(s.insufficient_data, 1);
    assert_eq!(s.weak, 1);
    assert_eq!(s.partial, 0);
    assert_eq!(
        s.validated + s.partial + s.weak + s.invalidated + s.not_groundable + s.insufficient_data,
        s.total_checked
    );
    assert_eq!(s.contradictions_generated, 1);
    assert_eq!(s.avg_grounding_score, (900_000 + 100_000 + 450_000) / 5);
    assert_eq!(s.duration_ms, 12);
}

#[test]
fn empty_snapshot() {
    let s = build_snapshot(&[], 0);
    assert_eq!(s.total_checked, 0);
    assert_eq!(s.avg_grounding_score, 0);
}

#[test]
fn grounding_config_validity() {
    let mut c = GroundingConfig::default();
    assert!(c.is_valid());
    c.gaps_scale = 0;
    assert!(!c.is_valid());
    c.gaps_scale = 10;
    c.partial_at = 800_000;
    assert!(!c.is_valid());
}
