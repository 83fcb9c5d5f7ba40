//! Grounding evaluator: maps evidence readings to a categorical verdict and a
//! score. Scores are fixed-point numbers: `SCORE_SCALE` stands for 1.0.

use vstd::prelude::*;

verus! {

/// The fixed-point unit of scores: one million parts make 1.0.
pub const SCORE_SCALE: u64 = 1000000;

/// The six categorical outcomes of grounding.
#[derive(Debug, Clone, Copy, PartialEq, Eq, Structural, Hash)]
pub enum GroundingVerdict {
    Validated,
    Partial,
    Weak,
    Invalidated,
    NotGroundable,
    InsufficientData,
}

/// One reading taken from the drift store for one evidence source.
#[derive(Debug, Clone, Copy, PartialEq, Eq, Structural)]
pub enum EvidenceReading {
    /// A numeric reading in `[0, 1]`, in units of `SCORE_SCALE`.
    Score(u64),
    /// A boolean reading, such as a verified constraint.
    Verified(bool),
    /// A count of error-handling gaps: more gaps, less support.
    Gaps(u32),
}

/// Thresholds of the verdict mapping (in units of `SCORE_SCALE`) and the
/// scale that turns a gap count into evidence.
#[derive(Debug, Clone, Copy)]
pub struct GroundingConfig {
    /// Below this mean the verdict is `Invalidated`.
    pub invalidated_below: u64,
    /// From this mean on the verdict is at least `Partial`.
    pub partial_at: u64,
    /// From this mean on the verdict is `Validated`.
    pub validated_at: u64,
    /// The least fraction of sources that must return a reading.
    pub min_support: u64,
    /// Gap count at which gap evidence reaches zero.
    pub gaps_scale: u32,
}

impl GroundingConfig {
    pub open spec fn wf(&self) -> bool {
        &&& self.invalidated_below <= self.partial_at
        &&& self.partial_at <= self.validated_at
        &&& self.validated_at <= SCORE_SCALE
        &&& self.min_support <= SCORE_SCALE
        &&& self.gaps_scale > 0
    }
}

impl GroundingConfig {
    /// Whether the thresholds ascend within `[0, SCORE_SCALE]` and the gap
    /// scale is positive.
    pub fn is_valid(&self) -> (r: bool)
        ensures
            r == self.wf(),
    {
        self.invalidated_below <= self.partial_at && self.partial_at <= self.validated_at
            && self.validated_at <= SCORE_SCALE && self.min_support <= SCORE_SCALE && self.gaps_scale > 0
    }
}

impl Default for GroundingConfig {
    /// Cutoffs 0.25, 0.50 and 0.75, support 0.50, ten gaps.
    fn default() -> (r: GroundingConfig)
        ensures
            r.invalidated_below == 250000,
            r.partial_at == 500000,
            r.validated_at == 750000,
            r.min_support == 500000,
            r.gaps_scale == 10,
            r.wf(),
    {
        GroundingConfig {
            invalidated_below: 250000,
            partial_at: 500000,
            validated_at: 750000,
            min_support: 500000,
            gaps_scale: 10,
        }
    }
}

/// The evidence value in `[0, SCORE_SCALE]` that a reading contributes.
pub open spec fn normalized(r: EvidenceReading, gaps_scale: nat) -> int {
    match r {
        EvidenceReading::Score(v) => if v > SCORE_SCALE { SCORE_SCALE as int } else { v as int },
        EvidenceReading::Verified(b) => if b { SCORE_SCALE as int } else { 0 },
        EvidenceReading::Gaps(g) => if g >= gaps_scale { 0 } else {
            (SCORE_SCALE * (gaps_scale - g)) as int / gaps_scale as int
        },
    }
}

/// The number of sources that returned a reading.
pub open spec fn support(rs: Seq<Option<EvidenceReading>>) -> nat
    decreases rs.len(),
{
    if rs.len() == 0 {
        0
    } else {
        support(rs.drop_last()) + if rs.last() is Some { 1nat } else { 0nat }
    }
}

/// The sum of the evidence values of the readings.
pub open spec fn total(rs: Seq<Option<EvidenceReading>>, gaps_scale: nat) -> int
    decreases rs.len(),
{
    if rs.len() == 0 {
        0
    } else {
        total(rs.drop_last(), gaps_scale) + match rs.last() {
            Some(r) => normalized(r, gaps_scale),
            None => 0,
        }
    }
}

/// The verdict for `n` sources of which `k` returned readings summing to
/// `sum`; the mean `sum / k` is compared with the cutoffs exactly.
pub open spec fn verdict_spec(cfg: GroundingConfig, n: int, k: int, sum: int) -> GroundingVerdict {
    if n == 0 {
        GroundingVerdict::NotGroundable
    } else if k == 0 {
        GroundingVerdict::InsufficientData
    } else if k * SCORE_SCALE < cfg.min_support * n {
        GroundingVerdict::Weak
    } else if sum >= cfg.validated_at * k {
        GroundingVerdict::Validated
    } else if sum >= cfg.partial_at * k {
        GroundingVerdict::Partial
    } else if sum < cfg.invalidated_below * k {
        GroundingVerdict::Invalidated
    } else {
        GroundingVerdict::Weak
    }
}

/// The mean evidence value, rounded down; zero without readings.
pub open spec fn score_spec(k: int, sum: int) -> int {
    if k == 0 { 0 } else { sum / k }
}

pub open spec fn is_low(o: Option<EvidenceReading>, gaps_scale: nat) -> bool {
    o is Some && 2 * normalized(o->Some_0, gaps_scale) < SCORE_SCALE
}

pub open spec fn is_high(o: Option<EvidenceReading>, gaps_scale: nat) -> bool {
    o is Some && 2 * normalized(o->Some_0, gaps_scale) > SCORE_SCALE
}

/// Two readings lie on opposite sides of one half.
pub open spec fn contradiction_spec(rs: Seq<Option<EvidenceReading>>, gaps_scale: nat) -> bool {
    &&& exists|i: int| 0 <= i < rs.len() && #[trigger] is_low(rs[i], gaps_scale)
    &&& exists|j: int| 0 <= j < rs.len() && #[trigger] is_high(rs[j], gaps_scale)
}

/// The outcome of grounding one memory.
#[derive(Debug, Clone, Copy)]
pub struct GroundingOutcome {
    pub verdict: GroundingVerdict,
    /// Mean evidence value in `[0, SCORE_SCALE]`.
    pub score: u64,
    /// Number of sources queried.
    pub sources: usize,
    /// Number of sources that returned a reading.
    pub supported: usize,
    /// Whether two readings lie on opposite sides of one half.
    pub contradiction: bool,
}

proof fn lemma_gap_value_bounded(g: nat, k: nat)
    requires
        g < k,
    ensures
        0 <= (SCORE_SCALE * (k - g)) as int / k as int <= SCORE_SCALE,
{
    let s = SCORE_SCALE as int;
    let m = (k - g) as int;
    assert(0 <= s * m <= s * k) by (nonlinear_arith)
        requires s >= 0, 0 < m <= k;
    assert((s * m) / (k as int) <= s) by (nonlinear_arith)
        requires 0 <= s * m <= s * k, k > 0;
    assert(0 <= (s * m) / (k as int)) by (nonlinear_arith)
        requires 0 <= s * m, k > 0;
}

/// The evidence value of one reading.
pub fn normalize(r: EvidenceReading, gaps_scale: u32) -> (v: u64)
    requires
        gaps_scale > 0,
    ensures
        v == normalized(r, gaps_scale as nat),
        v <= SCORE_SCALE,
{
    match r {
        EvidenceReading::Score(v) => if v > SCORE_SCALE { SCORE_SCALE } else { v },
        EvidenceReading::Verified(b) => if b { SCORE_SCALE } else { 0 },
        EvidenceReading::Gaps(g) => {
            if g >= gaps_scale {
                0
            } else {
                proof {
                    lemma_gap_value_bounded(g as nat, gaps_scale as nat);
                }
                let d = (gaps_scale - g) as u64;
                assert(1000000 * d <= 4294967296000000) by (nonlinear_arith)
                    requires d <= 4294967296;
                SCORE_SCALE * d / (gaps_scale as u64)
            }
        },
    }
}

/// Grounds one memory from the readings of its sources, one entry per source
/// queried (`None`: no reading). No sources is `NotGroundable`; no reading
/// is `InsufficientData`; too few readings is `Weak`; otherwise the mean
/// evidence value is set against the cutoffs.
pub fn evaluate_grounding(readings: &[Option<EvidenceReading>], cfg: &GroundingConfig) -> (r: GroundingOutcome)
    requires
        cfg.wf(),
    ensures
        r.sources == readings@.len(),
        r.supported == support(readings@),
        r.verdict == verdict_spec(*cfg, readings@.len() as int, support(readings@) as int,
            total(readings@, cfg.gaps_scale as nat)),
        r.score == score_spec(support(readings@) as int, total(readings@, cfg.gaps_scale as nat)),
        r.score <= SCORE_SCALE,
        r.contradiction == contradiction_spec(readings@, cfg.gaps_scale as nat),
{
    let ghost k_scale = cfg.gaps_scale as nat;
    let mut k: usize = 0;
    let mut sum: u128 = 0;
    let mut low = false;
    let mut high = false;
    let mut i: usize = 0;
    while i < readings.len()
        invariant
            0 <= i <= readings.len(),
            cfg.wf(),
            k_scale == cfg.gaps_scale as nat,
            k == support(readings@.subrange(0, i as int)),
            k <= i,
            sum == total(readings@.subrange(0, i as int), k_scale),
            0 <= sum <= k * SCORE_SCALE,
            low == exists|j: int| 0 <= j < i && #[trigger] is_low(readings@[j], k_scale),
            high == exists|j: int| 0 <= j < i && #[trigger] is_high(readings@[j], k_scale),
        decreases readings.len() - i,
    {
        let ghost next = readings@.subrange(0, i + 1);
        assert(next.drop_last() =~= readings@.subrange(0, i as int));
        match readings[i] {
            Some(r) => {
                let v = normalize(r, cfg.gaps_scale);
                assert(sum + v <= (k + 1) * SCORE_SCALE) by (nonlinear_arith)
                    requires sum <= k * SCORE_SCALE, v <= SCORE_SCALE;
                sum = sum + v as u128;
                k = k + 1;
                if 2 * v < SCORE_SCALE {
                    low = true;
                }
                if 2 * v > SCORE_SCALE {
                    high = true;
                }
            },
            None => {},
        }
        proof {
            assert(low == exists|j: int| 0 <= j < i + 1 && #[trigger] is_low(readings@[j], k_scale)) by {
                if is_low(readings@[i as int], k_scale) {
                    assert(low);
                }
            }
            assert(high == exists|j: int| 0 <= j < i + 1 && #[trigger] is_high(readings@[j], k_scale)) by {
                if is_high(readings@[i as int], k_scale) {
                    assert(high);
                }
            }
        }
        i += 1;
    }
    assert(readings@.subrange(0, readings.len() as int) =~= readings@);
    let n = readings.len();
    let score: u64 = if k == 0 {
        0
    } else {
        assert((sum as int) / (k as int) <= SCORE_SCALE as int) by (nonlinear_arith)
            requires sum <= k * SCORE_SCALE, k > 0;
        (sum / (k as u128)) as u64
    };
    let verdict = if n == 0 {
        GroundingVerdict::NotGroundable
    } else if k == 0 {
        GroundingVerdict::InsufficientData
    } else {
        assert((k as u128) * (SCORE_SCALE as u128) <= 18446744073709551615u128 * 1000000u128) by (nonlinear_arith)
            requires k <= 18446744073709551615u128;
        assert((cfg.min_support as u128) * (n as u128) <= 1000000u128 * 18446744073709551615u128) by (nonlinear_arith)
            requires cfg.min_support <= 1000000, n <= 18446744073709551615u128;
        assert((cfg.validated_at as u128) * (k as u128) <= 1000000u128 * 18446744073709551615u128) by (nonlinear_arith)
            requires cfg.validated_at <= 1000000, k <= 18446744073709551615u128;
        assert((cfg.partial_at as u128) * (k as u128) <= 1000000u128 * 18446744073709551615u128) by (nonlinear_arith)
            requires cfg.partial_at <= 1000000, k <= 18446744073709551615u128;
        assert((cfg.invalidated_below as u128) * (k as u128) <= 1000000u128 * 18446744073709551615u128) by (nonlinear_arith)
            requires cfg.invalidated_below <= 1000000, k <= 18446744073709551615u128;
        if (k as u128) * (SCORE_SCALE as u128) < (cfg.min_support as u128) * (n as u128) {
            GroundingVerdict::Weak
        } else if sum >= (cfg.validated_at as u128) * (k as u128) {
            GroundingVerdict::Validated
        } else if sum >= (cfg.partial_at as u128) * (k as u128) {
            GroundingVerdict::Partial
        } else if sum < (cfg.invalidated_below as u128) * (k as u128) {
            GroundingVerdict::Invalidated
        } else {
            GroundingVerdict::Weak
        }
    };
    GroundingOutcome { verdict, score, sources: n, supported: k, contradiction: low && high }
}


proof fn lemma_all_missing(rs: Seq<Option<EvidenceReading>>, gaps_scale: nat)
    requires
        forall|i: int| 0 <= i < rs.len() ==> #[trigger] rs[i] is None,
    ensures
        support(rs) == 0,
        total(rs, gaps_scale) == 0,
    decreases rs.len(),
{
    if rs.len() > 0 {
        let p = rs.drop_last();
        assert forall|i: int| 0 <= i < p.len() implies #[trigger] p[i] is None by {
            assert(rs[i] is None);
        }
        lemma_all_missing(p, gaps_scale);
        assert(rs[rs.len() - 1] is None);
    }
}

/// A memory that declares no sources is not groundable.
pub proof fn law_no_sources_not_groundable(cfg: GroundingConfig, rs: Seq<Option<EvidenceReading>>)
    requires
        rs.len() == 0,
    ensures
        verdict_spec(cfg, rs.len() as int, support(rs) as int, total(rs, cfg.gaps_scale as nat))
            == GroundingVerdict::NotGroundable,
{
}

/// A memory whose sources all lack a reading has insufficient data.
pub proof fn law_all_missing_insufficient(cfg: GroundingConfig, rs: Seq<Option<EvidenceReading>>)
    requires
        rs.len() > 0,
        forall|i: int| 0 <= i < rs.len() ==> #[trigger] rs[i] is None,
    ensures
        verdict_spec(cfg, rs.len() as int, support(rs) as int, total(rs, cfg.gaps_scale as nat))
            == GroundingVerdict::InsufficientData,
{
    lemma_all_missing(rs, cfg.gaps_scale as nat);
}

/// Verdict counts and aggregates over a batch of grounded memories.
#[derive(Debug, Clone, Copy)]
pub struct GroundingSnapshot {
    pub total_checked: u32,
    pub validated: u32,
    pub partial: u32,
    pub weak: u32,
    pub invalidated: u32,
    pub not_groundable: u32,
    pub insufficient_data: u32,
    /// Mean score in `[0, SCORE_SCALE]`.
    pub avg_grounding_score: u64,
    pub contradictions_generated: u32,
    pub duration_ms: u32,
}

impl GroundingSnapshot {
    /// The six verdict counts sum to the number checked, and the mean score
    /// lies in `[0, SCORE_SCALE]`.
    pub open spec fn wf(&self) -> bool {
        &&& self.validated + self.partial + self.weak + self.invalidated + self.not_groundable
            + self.insufficient_data == self.total_checked
        &&& self.avg_grounding_score <= SCORE_SCALE
    }
}

/// How many outcomes carry verdict `v`.
pub open spec fn count_verdict(os: Seq<GroundingOutcome>, v: GroundingVerdict) -> nat
    decreases os.len(),
{
    if os.len() == 0 {
        0
    } else {
        count_verdict(os.drop_last(), v) + if os.last().verdict == v { 1nat } else { 0nat }
    }
}

/// How many outcomes record a contradiction.
pub open spec fn count_contradictions(os: Seq<GroundingOutcome>) -> nat
    decreases os.len(),
{
    if os.len() == 0 {
        0
    } else {
        count_contradictions(os.drop_last()) + if os.last().contradiction { 1nat } else { 0nat }
    }
}

/// The sum of the outcomes' scores.
pub open spec fn score_sum(os: Seq<GroundingOutcome>) -> nat
    decreases os.len(),
{
    if os.len() == 0 {
        0
    } else {
        score_sum(os.drop_last()) + os.last().score as nat
    }
}

pub open spec fn verdict_counts_sum(os: Seq<GroundingOutcome>) -> nat {
    count_verdict(os, GroundingVerdict::Validated) + count_verdict(os, GroundingVerdict::Partial)
        + count_verdict(os, GroundingVerdict::Weak) + count_verdict(os, GroundingVerdict::Invalidated)
        + count_verdict(os, GroundingVerdict::NotGroundable) + count_verdict(os, GroundingVerdict::InsufficientData)
}

/// Every outcome carries exactly one of the six verdicts, so the verdict
/// counts of a batch sum to its size.
pub proof fn law_verdict_counts_sum(os: Seq<GroundingOutcome>)
    ensures
        verdict_counts_sum(os) == os.len(),
    decreases os.len(),
{
    if os.len() > 0 {
        law_verdict_counts_sum(os.drop_last());
    }
}

/// Tallies a batch of outcomes into a snapshot.
pub fn build_snapshot(outcomes: &[GroundingOutcome], duration_ms: u32) -> (r: GroundingSnapshot)
    requires
        outcomes@.len() <= u32::MAX,
        forall|i: int| 0 <= i < outcomes@.len() ==> #[trigger] outcomes@[i].score <= SCORE_SCALE,
    ensures
        r.wf(),
        r.total_checked == outcomes@.len(),
        r.validated == count_verdict(outcomes@, GroundingVerdict::Validated),
        r.partial == count_verdict(outcomes@, GroundingVerdict::Partial),
        r.weak == count_verdict(outcomes@, GroundingVerdict::Weak),
        r.invalidated == count_verdict(outcomes@, GroundingVerdict::Invalidated),
        r.not_groundable == count_verdict(outcomes@, GroundingVerdict::NotGroundable),
        r.insufficient_data == count_verdict(outcomes@, GroundingVerdict::InsufficientData),
        r.contradictions_generated == count_contradictions(outcomes@),
        r.avg_grounding_score == (if outcomes@.len() == 0 { 0 } else { score_sum(outcomes@) / outcomes@.len() }),
        r.duration_ms == duration_ms,
{
    let mut snap = GroundingSnapshot {
        total_checked: 0,
        validated: 0,
        partial: 0,
        weak: 0,
        invalidated: 0,
        not_groundable: 0,
        insufficient_data: 0,
        avg_grounding_score: 0,
        contradictions_generated: 0,
        duration_ms,
    };
    let mut sum: u128 = 0;
    let mut i: usize = 0;
    while i < outcomes.len()
        invariant
            0 <= i <= outcomes.len(),
            outcomes@.len() <= u32::MAX,
            forall|j: int| 0 <= j < outcomes@.len() ==> #[trigger] outcomes@[j].score <= SCORE_SCALE,
            snap.total_checked == i,
            snap.validated == count_verdict(outcomes@.subrange(0, i as int), GroundingVerdict::Validated),
            snap.partial == count_verdict(outcomes@.subrange(0, i as int), GroundingVerdict::Partial),
            snap.weak == count_verdict(outcomes@.subrange(0, i as int), GroundingVerdict::Weak),
            snap.invalidated == count_verdict(outcomes@.subrange(0, i as int), GroundingVerdict::Invalidated),
            snap.not_groundable == count_verdict(outcomes@.subrange(0, i as int), GroundingVerdict::NotGroundable),
            snap.insufficient_data == count_verdict(outcomes@.subrange(0, i as int), GroundingVerdict::InsufficientData),
            snap.contradictions_generated == count_contradictions(outcomes@.subrange(0, i as int)),
            count_contradictions(outcomes@.subrange(0, i as int)) <= i,
            verdict_counts_sum(outcomes@.subrange(0, i as int)) == i,
            sum == score_sum(outcomes@.subrange(0, i as int)),
            sum <= i * SCORE_SCALE,
            snap.avg_grounding_score == 0,
            snap.duration_ms == duration_ms,
        decreases outcomes.len() - i,
    {
        let ghost next = outcomes@.subrange(0, i + 1);
        assert(next.drop_last() =~= outcomes@.subrange(0, i as int));
        proof {
            law_verdict_counts_sum(next);
        }
        let o = outcomes[i];
        match o.verdict {
            GroundingVerdict::Validated => snap.validated = snap.validated + 1,
            GroundingVerdict::Partial => snap.partial = snap.partial + 1,
            GroundingVerdict::Weak => snap.weak = snap.weak + 1,
            GroundingVerdict::Invalidated => snap.invalidated = snap.invalidated + 1,
            GroundingVerdict::NotGroundable => snap.not_groundable = snap.not_groundable + 1,
            GroundingVerdict::InsufficientData => snap.insufficient_data = snap.insufficient_data + 1,
        }
        if o.contradiction {
            snap.contradictions_generated = snap.contradictions_generated + 1;
        }
        assert(sum + o.score <= (i + 1) * SCORE_SCALE) by (nonlinear_arith)
            requires sum <= i * SCORE_SCALE, o.score <= SCORE_SCALE;
        sum = sum + o.score as u128;
        snap.total_checked = snap.total_checked + 1;
        i += 1;
    }
    assert(outcomes@.subrange(0, outcomes.len() as int) =~= outcomes@);
    if outcomes.len() > 0 {
        let n = outcomes.len() as u128;
        assert((sum as int) / (n as int) <= SCORE_SCALE as int) by (nonlinear_arith)
            requires sum <= n * SCORE_SCALE, n > 0;
        snap.avg_grounding_score = (sum / n) as u64;
    }
    snap
}

} // verus!
