//! Records that the bridge hands to its callers, and the mapping from
//! evidence sources to the drift-store lookups that read them.

use vstd::prelude::*;
use crate::data_source::GroundingDataSource;

verus! {

/// Result of processing one drift event through the bridge.
#[derive(Debug, Clone)]
pub struct EventProcessingResult {
    /// The event that was processed.
    pub event_type: String,
    /// Whether a memory was created.
    pub memory_created: bool,
    /// The created memory's id, if any.
    pub memory_id: Option<String>,
    /// The created memory's type tag, if any.
    pub memory_type: Option<String>,
    /// Ids of the links created.
    pub links_created: Vec<String>,
    /// Processing duration in microseconds.
    pub duration_us: u64,
    /// A non-fatal error, if processing partly failed.
    pub error: Option<String>,
}

/// The ten point lookups of the drift store, one per evidence type.
#[derive(Debug, Clone, Copy, PartialEq, Eq, Structural)]
pub enum EvidenceQuery {
    PatternConfidence,
    PatternOccurrenceRate,
    FalsePositiveRate,
    ConstraintVerified,
    CouplingMetric,
    DnaHealth,
    TestCoverage,
    ErrorHandlingGaps,
    DecisionEvidence,
    BoundaryData,
}

/// The lookup that reads a source's evidence; none for sources the drift
/// store keeps no reading of.
pub open spec fn query_for_spec(s: GroundingDataSource) -> Option<EvidenceQuery> {
    match s {
        GroundingDataSource::Patterns => Some(EvidenceQuery::PatternConfidence),
        GroundingDataSource::Conventions => Some(EvidenceQuery::PatternOccurrenceRate),
        GroundingDataSource::Constraints => Some(EvidenceQuery::ConstraintVerified),
        GroundingDataSource::Coupling => Some(EvidenceQuery::CouplingMetric),
        GroundingDataSource::Dna => Some(EvidenceQuery::DnaHealth),
        GroundingDataSource::TestTopology => Some(EvidenceQuery::TestCoverage),
        GroundingDataSource::ErrorHandling => Some(EvidenceQuery::ErrorHandlingGaps),
        GroundingDataSource::Decisions => Some(EvidenceQuery::DecisionEvidence),
        GroundingDataSource::Boundaries => Some(EvidenceQuery::BoundaryData),
        _ => None,
    }
}

/// The lookup that reads the evidence of `source`.
pub fn query_for(source: GroundingDataSource) -> (r: Option<EvidenceQuery>)
    ensures
        r == query_for_spec(source),
{
    match source {
        GroundingDataSource::Patterns => Some(EvidenceQuery::PatternConfidence),
        GroundingDataSource::Conventions => Some(EvidenceQuery::PatternOccurrenceRate),
        GroundingDataSource::Constraints => Some(EvidenceQuery::ConstraintVerified),
        GroundingDataSource::Coupling => Some(EvidenceQuery::CouplingMetric),
        GroundingDataSource::Dna => Some(EvidenceQuery::DnaHealth),
        GroundingDataSource::TestTopology => Some(EvidenceQuery::TestCoverage),
        GroundingDataSource::ErrorHandling => Some(EvidenceQuery::ErrorHandlingGaps),
        GroundingDataSource::Decisions => Some(EvidenceQuery::DecisionEvidence),
        GroundingDataSource::Boundaries => Some(EvidenceQuery::BoundaryData),
        _ => None,
    }
}

} // verus!
