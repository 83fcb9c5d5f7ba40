//! Enforcement rows of the drift store and the feedback-to-confidence
//! calculus. Deltas are fixed-point numbers: `DELTA_SCALE` stands for 1.0.

use vstd::prelude::*;
use vstd::string::StringExecFns;

verus! {

/// The fixed-point unit of confidence deltas: one hundred parts make 1.0.
pub const DELTA_SCALE: u32 = 100;

/// One enforcement violation.
#[derive(Debug, Clone)]
pub struct ViolationRow {
    pub id: String,
    pub file: String,
    pub line: u32,
    pub column: Option<u32>,
    pub end_line: Option<u32>,
    pub end_column: Option<u32>,
    pub severity: String,
    pub pattern_id: String,
    pub rule_id: String,
    pub message: String,
    pub quick_fix_strategy: Option<String>,
    pub quick_fix_description: Option<String>,
    pub cwe_id: Option<u32>,
    pub owasp_category: Option<String>,
    pub suppressed: bool,
    pub is_new: bool,
}

/// One user action on a violation.
#[derive(Debug, Clone)]
pub struct FeedbackRow {
    pub violation_id: String,
    pub pattern_id: String,
    pub detector_id: String,
    pub action: String,
    pub dismissal_reason: Option<String>,
    pub reason: Option<String>,
    pub author: Option<String>,
    pub created_at: u64,
}

/// Feedback counts by action.
#[derive(Debug, Clone)]
pub struct FeedbackStats {
    pub total_count: u32,
    pub fix_count: u32,
    pub dismiss_count: u32,
    pub suppress_count: u32,
    pub escalate_count: u32,
}

impl Default for FeedbackStats {
    fn default() -> (r: FeedbackStats)
        ensures
            r.total_count == 0,
            r.fix_count == 0,
            r.dismiss_count == 0,
            r.suppress_count == 0,
            r.escalate_count == 0,
    {
        FeedbackStats { total_count: 0, fix_count: 0, dismiss_count: 0, suppress_count: 0, escalate_count: 0 }
    }
}

/// `(alpha_delta, beta_delta)` in units of `DELTA_SCALE` for an action and an
/// optional dismissal reason.
pub open spec fn deltas_spec(action: Seq<char>, reason: Option<Seq<char>>) -> (u32, u32) {
    if action == "fix"@ {
        (100, 0)
    } else if action == "dismiss"@ {
        match reason {
            Some(r) => if r == "false_positive"@ {
                (0, 50)
            } else if r == "not_applicable"@ {
                (0, 25)
            } else if r == "wont_fix"@ || r == "duplicate"@ {
                (0, 0)
            } else {
                (0, 25)
            },
            None => (0, 25),
        }
    } else if action == "suppress"@ {
        (0, 10)
    } else if action == "escalate"@ {
        (50, 0)
    } else {
        (0, 0)
    }
}

fn text_is(s: &String, lit: &str) -> (r: bool)
    ensures
        r == (s@ == lit@),
{
    let t = String::from_str(lit);
    *s == t
}

/// Maps a feedback action and optional dismissal reason to
/// `(alpha_delta, beta_delta)` in units of `DELTA_SCALE`.
pub fn feedback_action_to_deltas(action: &String, dismissal_reason: &Option<String>) -> (r: (u32, u32))
    ensures
        r == deltas_spec(action@, match dismissal_reason {
            Some(s) => Some(s@),
            None => None,
        }),
{
    if text_is(action, "fix") {
        (100, 0)
    } else if text_is(action, "dismiss") {
        match dismissal_reason {
            Some(r) => if text_is(r, "false_positive") {
                (0, 50)
            } else if text_is(r, "not_applicable") {
                (0, 25)
            } else if text_is(r, "wont_fix") || text_is(r, "duplicate") {
                (0, 0)
            } else {
                (0, 25)
            },
            None => (0, 25),
        }
    } else if text_is(action, "suppress") {
        (0, 10)
    } else if text_is(action, "escalate") {
        (50, 0)
    } else {
        (0, 0)
    }
}

pub open spec fn row_deltas(f: FeedbackRow) -> (u32, u32) {
    deltas_spec(f.action@, match f.dismissal_reason {
        Some(s) => Some(s@),
        None => None,
    })
}

/// The deltas of each feedback row, in row order.
pub fn feedback_adjustments(rows: &[FeedbackRow]) -> (r: Vec<(u32, u32)>)
    ensures
        r@.len() == rows@.len(),
        forall|i: int| 0 <= i < rows@.len() ==> #[trigger] r@[i] == row_deltas(rows@[i]),
{
    let mut out: Vec<(u32, u32)> = Vec::new();
    let mut i: usize = 0;
    while i < rows.len()
        invariant
            0 <= i <= rows.len(),
            out@.len() == i,
            forall|j: int| 0 <= j < i ==> #[trigger] out@[j] == row_deltas(rows@[j]),
        decreases rows.len() - i,
    {
        let d = feedback_action_to_deltas(&rows[i].action, &rows[i].dismissal_reason);
        out.push(d);
        i += 1;
    }
    out
}

/// The sum of the counts of `(action, count)` rows.
pub open spec fn counts_total(rows: Seq<(String, u32)>) -> nat
    decreases rows.len(),
{
    if rows.len() == 0 {
        0
    } else {
        counts_total(rows.drop_last()) + rows.last().1 as nat
    }
}

/// The count of the last row for `action`, zero when there is none.
pub open spec fn count_for(rows: Seq<(String, u32)>, action: Seq<char>) -> u32
    decreases rows.len(),
{
    if rows.len() == 0 {
        0
    } else if rows.last().0@ == action {
        rows.last().1
    } else {
        count_for(rows.drop_last(), action)
    }
}

/// Folds `(action, count)` rows, one per action, into statistics: the total
/// of all counts, and the count of each known action.
pub fn tally_feedback_stats(rows: &[(String, u32)]) -> (r: FeedbackStats)
    requires
        counts_total(rows@) <= u32::MAX,
    ensures
        r.total_count == counts_total(rows@),
        r.fix_count == count_for(rows@, "fix"@),
        r.dismiss_count == count_for(rows@, "dismiss"@),
        r.suppress_count == count_for(rows@, "suppress"@),
        r.escalate_count == count_for(rows@, "escalate"@),
{
    let mut stats = FeedbackStats::default();
    let mut i: usize = 0;
    while i < rows.len()
        invariant
            0 <= i <= rows.len(),
            counts_total(rows@) <= u32::MAX,
            stats.total_count == counts_total(rows@.subrange(0, i as int)),
            stats.fix_count == count_for(rows@.subrange(0, i as int), "fix"@),
            stats.dismiss_count == count_for(rows@.subrange(0, i as int), "dismiss"@),
            stats.suppress_count == count_for(rows@.subrange(0, i as int), "suppress"@),
            stats.escalate_count == count_for(rows@.subrange(0, i as int), "escalate"@),
        decreases rows.len() - i,
    {
        let ghost next = rows@.subrange(0, i + 1);
        assert(next.drop_last() =~= rows@.subrange(0, i as int));
        proof {
            lemma_counts_total_prefix(rows@, i as int + 1);
        }
        proof {
            reveal_strlit("fix");
            reveal_strlit("dismiss");
            reveal_strlit("suppress");
            reveal_strlit("escalate");
            assert("fix"@.len() == 3 && "dismiss"@.len() == 7);
            assert("suppress"@.len() == 8 && "escalate"@.len() == 8);
            assert("suppress"@[0] != "escalate"@[0]);
        }
        let (action, count) = (&rows[i].0, rows[i].1);
        if text_is(action, "fix") {
            stats.fix_count = count;
        } else if text_is(action, "dismiss") {
            stats.dismiss_count = count;
        } else if text_is(action, "suppress") {
            stats.suppress_count = count;
        } else if text_is(action, "escalate") {
            stats.escalate_count = count;
        }
        stats.total_count = stats.total_count + count;
        i += 1;
    }
    assert(rows@.subrange(0, rows.len() as int) =~= rows@);
    stats
}

/// Folds `(action, count)` rows into statistics as `tally_feedback_stats`
/// does, or gives `None` when the counts add up past `u32::MAX`.
pub fn feedback_stats_checked(rows: &[(String, u32)]) -> (r: Option<FeedbackStats>)
    ensures
        r is None <==> counts_total(rows@) > u32::MAX,
        r is Some ==> (r->Some_0.total_count == counts_total(rows@)
            && r->Some_0.fix_count == count_for(rows@, "fix"@)
            && r->Some_0.dismiss_count == count_for(rows@, "dismiss"@)
            && r->Some_0.suppress_count == count_for(rows@, "suppress"@)
            && r->Some_0.escalate_count == count_for(rows@, "escalate"@)),
{
    let mut total: u64 = 0;
    let mut i: usize = 0;
    while i < rows.len()
        invariant
            0 <= i <= rows.len(),
            total == counts_total(rows@.subrange(0, i as int)),
            total <= u32::MAX,
        decreases rows.len() - i,
    {
        let ghost next = rows@.subrange(0, i + 1);
        assert(next.drop_last() =~= rows@.subrange(0, i as int));
        total = total + rows[i].1 as u64;
        if total > u32::MAX as u64 {
            proof {
                lemma_counts_total_prefix(rows@, i as int + 1);
            }
            return None;
        }
        i += 1;
    }
    assert(rows@.subrange(0, rows.len() as int) =~= rows@);
    Some(tally_feedback_stats(rows))
}

proof fn lemma_counts_total_prefix(rows: Seq<(String, u32)>, n: int)
    requires
        0 <= n <= rows.len(),
    ensures
        counts_total(rows.subrange(0, n)) <= counts_total(rows),
    decreases rows.len(),
{
    if n < rows.len() {
        assert(rows.drop_last().subrange(0, n) =~= rows.subrange(0, n));
        lemma_counts_total_prefix(rows.drop_last(), n);
    } else {
        assert(rows.subrange(0, n) =~= rows);
    }
}


/// The kinds of confidence adjustment that feedback can make.
#[derive(Debug, Clone, Copy, PartialEq, Eq, Structural)]
pub enum AdjustmentMode {
    Fix,
    DismissFalsePositive,
    DismissNotApplicable,
    DismissOther,
    Suppress,
    Escalate,
}

/// A `(alpha_delta, beta_delta)` pair, in units of `DELTA_SCALE`, with the
/// kind of feedback that produced it.
#[derive(Debug, Clone, Copy, PartialEq, Eq, Structural)]
pub struct ConfidenceAdjustment {
    pub mode: AdjustmentMode,
    pub alpha_delta: u32,
    pub beta_delta: u32,
}

/// The adjustment mode of an action and dismissal reason; none for an
/// unknown action.
pub open spec fn mode_spec(action: Seq<char>, reason: Option<Seq<char>>) -> Option<AdjustmentMode> {
    if action == "fix"@ {
        Some(AdjustmentMode::Fix)
    } else if action == "dismiss"@ {
        match reason {
            Some(r) => if r == "false_positive"@ {
                Some(AdjustmentMode::DismissFalsePositive)
            } else if r == "not_applicable"@ {
                Some(AdjustmentMode::DismissNotApplicable)
            } else {
                Some(AdjustmentMode::DismissOther)
            },
            None => Some(AdjustmentMode::DismissOther),
        }
    } else if action == "suppress"@ {
        Some(AdjustmentMode::Suppress)
    } else if action == "escalate"@ {
        Some(AdjustmentMode::Escalate)
    } else {
        None
    }
}

/// The adjustment that one feedback row makes: its mode and its deltas.
/// An unknown action makes none.
pub fn feedback_adjustment(f: &FeedbackRow) -> (r: Option<ConfidenceAdjustment>)
    ensures
        r is None <==> mode_spec(f.action@, match f.dismissal_reason {
            Some(s) => Some(s@),
            None => None,
        }) is None,
        r is Some ==> r->Some_0.mode == mode_spec(f.action@, match f.dismissal_reason {
            Some(s) => Some(s@),
            None => None,
        })->Some_0,
        r is Some ==> (r->Some_0.alpha_delta, r->Some_0.beta_delta) == row_deltas(*f),
{
    let (alpha_delta, beta_delta) = feedback_action_to_deltas(&f.action, &f.dismissal_reason);
    let mode = if text_is(&f.action, "fix") {
        AdjustmentMode::Fix
    } else if text_is(&f.action, "dismiss") {
        match &f.dismissal_reason {
            Some(r) => if text_is(r, "false_positive") {
                AdjustmentMode::DismissFalsePositive
            } else if text_is(r, "not_applicable") {
                AdjustmentMode::DismissNotApplicable
            } else {
                AdjustmentMode::DismissOther
            },
            None => AdjustmentMode::DismissOther,
        }
    } else if text_is(&f.action, "suppress") {
        AdjustmentMode::Suppress
    } else if text_is(&f.action, "escalate") {
        AdjustmentMode::Escalate
    } else {
        return None;
    };
    Some(ConfidenceAdjustment { mode, alpha_delta, beta_delta })
}

} // verus!
