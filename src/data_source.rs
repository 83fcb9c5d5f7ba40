//! The analysis subsystems that can supply grounding evidence.

use vstd::prelude::*;

verus! {

/// The drift subsystems that can provide grounding evidence.
#[derive(Debug, Clone, Copy, PartialEq, Eq, Structural, Hash)]
pub enum GroundingDataSource {
    /// Pattern detection engine.
    Patterns,
    /// Convention detection engine.
    Conventions,
    /// Constraint enforcement engine.
    Constraints,
    /// Coupling analysis engine.
    Coupling,
    /// DNA fingerprinting engine.
    Dna,
    /// Test topology engine.
    TestTopology,
    /// Error handling analysis engine.
    ErrorHandling,
    /// Decision mining engine.
    Decisions,
    /// Boundary detection engine.
    Boundaries,
    /// Taint analysis engine.
    Taint,
    /// Call graph engine.
    CallGraph,
    /// Security analysis engine.
    Security,
}

/// The canonical lowercase tag of each source.
pub open spec fn source_tag(s: GroundingDataSource) -> Seq<char> {
    match s {
        GroundingDataSource::Patterns => "patterns"@,
        GroundingDataSource::Conventions => "conventions"@,
        GroundingDataSource::Constraints => "constraints"@,
        GroundingDataSource::Coupling => "coupling"@,
        GroundingDataSource::Dna => "dna"@,
        GroundingDataSource::TestTopology => "test_topology"@,
        GroundingDataSource::ErrorHandling => "error_handling"@,
        GroundingDataSource::Decisions => "decisions"@,
        GroundingDataSource::Boundaries => "boundaries"@,
        GroundingDataSource::Taint => "taint"@,
        GroundingDataSource::CallGraph => "call_graph"@,
        GroundingDataSource::Security => "security"@,
    }
}

/// All sources in display order.
pub open spec fn all_sources_spec() -> Seq<GroundingDataSource> {
    seq![
        GroundingDataSource::Patterns,
        GroundingDataSource::Conventions,
        GroundingDataSource::Constraints,
        GroundingDataSource::Coupling,
        GroundingDataSource::Dna,
        GroundingDataSource::TestTopology,
        GroundingDataSource::ErrorHandling,
        GroundingDataSource::Decisions,
        GroundingDataSource::Boundaries,
        GroundingDataSource::Taint,
        GroundingDataSource::CallGraph,
        GroundingDataSource::Security,
    ]
}

impl GroundingDataSource {
    /// String representation for storage and display.
    pub fn as_str(&self) -> (r: &'static str)
        ensures
            r@ == source_tag(*self),
    {
        proof {
            reveal_strlit("patterns");
            reveal_strlit("conventions");
            reveal_strlit("constraints");
            reveal_strlit("coupling");
            reveal_strlit("dna");
            reveal_strlit("test_topology");
            reveal_strlit("error_handling");
            reveal_strlit("decisions");
            reveal_strlit("boundaries");
            reveal_strlit("taint");
            reveal_strlit("call_graph");
            reveal_strlit("security");
        }
        match self {
            GroundingDataSource::Patterns => "patterns",
            GroundingDataSource::Conventions => "conventions",
            GroundingDataSource::Constraints => "constraints",
            GroundingDataSource::Coupling => "coupling",
            GroundingDataSource::Dna => "dna",
            GroundingDataSource::TestTopology => "test_topology",
            GroundingDataSource::ErrorHandling => "error_handling",
            GroundingDataSource::Decisions => "decisions",
            GroundingDataSource::Boundaries => "boundaries",
            GroundingDataSource::Taint => "taint",
            GroundingDataSource::CallGraph => "call_graph",
            GroundingDataSource::Security => "security",
        }
    }

    /// All sources, in display order.
    pub fn all() -> (r: Vec<GroundingDataSource>)
        ensures
            r@ == all_sources_spec(),
    {
        let r = vec![
            GroundingDataSource::Patterns,
            GroundingDataSource::Conventions,
            GroundingDataSource::Constraints,
            GroundingDataSource::Coupling,
            GroundingDataSource::Dna,
            GroundingDataSource::TestTopology,
            GroundingDataSource::ErrorHandling,
            GroundingDataSource::Decisions,
            GroundingDataSource::Boundaries,
            GroundingDataSource::Taint,
            GroundingDataSource::CallGraph,
            GroundingDataSource::Security,
        ];
        assert(r@ =~= all_sources_spec());
        r
    }
}

} // verus!
