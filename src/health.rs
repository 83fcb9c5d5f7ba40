//! Health checks and readiness: aggregates per-subsystem liveness into a
//! three-valued availability signal.

use vstd::prelude::*;
use vstd::string::StringExecFns;

verus! {

/// Outcome of probing one subsystem.
#[derive(Debug, Clone)]
pub struct SubsystemCheck {
    pub name: String,
    pub healthy: bool,
    pub detail: String,
}

/// Overall bridge availability.
#[derive(Debug, Clone)]
pub enum BridgeHealth {
    Available,
    Degraded(Vec<String>),
    Unavailable,
}

/// The text `"{name}: {detail}"` that reports an unhealthy check.
pub open spec fn reason_of(c: SubsystemCheck) -> Seq<char> {
    c.name@ + ": "@ + c.detail@
}

/// The reasons of the unhealthy checks of `cs`, in input order.
pub open spec fn unhealthy_reasons(cs: Seq<SubsystemCheck>) -> Seq<Seq<char>>
    decreases cs.len(),
{
    if cs.len() == 0 {
        Seq::empty()
    } else {
        let prev = unhealthy_reasons(cs.drop_last());
        if cs.last().healthy {
            prev
        } else {
            prev.push(reason_of(cs.last()))
        }
    }
}

pub open spec fn all_healthy(cs: Seq<SubsystemCheck>) -> bool {
    forall|i: int| 0 <= i < cs.len() ==> #[trigger] cs[i].healthy
}

pub open spec fn some_healthy(cs: Seq<SubsystemCheck>) -> bool {
    exists|i: int| 0 <= i < cs.len() && #[trigger] cs[i].healthy
}

/// The three-valued aggregate, with the degradation reasons as text.
pub enum HealthModel {
    Available,
    Degraded(Seq<Seq<char>>),
    Unavailable,
}

pub open spec fn health_model(cs: Seq<SubsystemCheck>) -> HealthModel {
    if cs.len() == 0 {
        HealthModel::Unavailable
    } else if all_healthy(cs) {
        HealthModel::Available
    } else if some_healthy(cs) {
        HealthModel::Degraded(unhealthy_reasons(cs))
    } else {
        HealthModel::Unavailable
    }
}

impl BridgeHealth {
    pub open spec fn view(&self) -> HealthModel {
        match self {
            BridgeHealth::Available => HealthModel::Available,
            BridgeHealth::Degraded(v) => HealthModel::Degraded(v@.map_values(|s: String| s@)),
            BridgeHealth::Unavailable => HealthModel::Unavailable,
        }
    }
}

proof fn lemma_reasons_empty_iff_all_healthy(cs: Seq<SubsystemCheck>)
    ensures
        unhealthy_reasons(cs).len() == 0 <==> all_healthy(cs),
    decreases cs.len(),
{
    if cs.len() > 0 {
        lemma_reasons_empty_iff_all_healthy(cs.drop_last());
        if all_healthy(cs) {
            assert forall|i: int| 0 <= i < cs.drop_last().len() implies #[trigger] cs.drop_last()[i].healthy by {
                assert(cs[i].healthy);
            }
        }
        if all_healthy(cs.drop_last()) && cs.last().healthy {
            assert forall|i: int| 0 <= i < cs.len() implies #[trigger] cs[i].healthy by {
                if i < cs.len() - 1 {
                    assert(cs.drop_last()[i].healthy);
                }
            }
        }
    }
}

fn reason_text(c: &SubsystemCheck) -> (r: String)
    ensures
        r@ == reason_of(*c),
{
    let mut s = c.name.clone();
    s.append(": ");
    s.append(c.detail.as_str());
    s
}

/// Aggregates subsystem checks: no checks or no healthy check is
/// `Unavailable`, all healthy is `Available`, and a mix is `Degraded` with
/// one `"{name}: {detail}"` reason per unhealthy check, in input order.
pub fn compute_health(checks: &[SubsystemCheck]) -> (r: BridgeHealth)
    ensures
        r@ == health_model(checks@),
{
    if checks.len() == 0 {
        return BridgeHealth::Unavailable;
    }
    let mut unhealthy: Vec<String> = Vec::new();
    let mut any_healthy = false;
    let mut i: usize = 0;
    while i < checks.len()
        invariant
            0 <= i <= checks.len(),
            unhealthy@.map_values(|s: String| s@) == unhealthy_reasons(checks@.subrange(0, i as int)),
            any_healthy == some_healthy(checks@.subrange(0, i as int)),
        decreases checks.len() - i,
    {
        let c = &checks[i];
        let ghost prefix = checks@.subrange(0, i as int);
        let ghost next = checks@.subrange(0, i + 1);
        assert(next.drop_last() =~= prefix);
        if !c.healthy {
            let text = reason_text(c);
            unhealthy.push(text);
        } else {
            any_healthy = true;
        }
        proof {
            assert(unhealthy@.map_values(|s: String| s@) =~= unhealthy_reasons(next));
            if some_healthy(prefix) {
                let j = choose|j: int| 0 <= j < prefix.len() && #[trigger] prefix[j].healthy;
                assert(next[j].healthy);
            }
            if some_healthy(next) && !c.healthy {
                let j = choose|j: int| 0 <= j < next.len() && #[trigger] next[j].healthy;
                assert(prefix[j].healthy);
            }
            if c.healthy {
                assert(next[i as int].healthy);
            }
        }
        i += 1;
    }
    assert(checks@.subrange(0, checks.len() as int) =~= checks@);
    proof {
        lemma_reasons_empty_iff_all_healthy(checks@);
    }
    if unhealthy.len() == 0 {
        BridgeHealth::Available
    } else if any_healthy {
        BridgeHealth::Degraded(unhealthy)
    } else {
        BridgeHealth::Unavailable
    }
}


pub open spec fn is_cortex_ready(c: SubsystemCheck) -> bool {
    c.name@ == "cortex_db"@ && c.healthy
}

/// True iff some check named `cortex_db` is healthy.
pub fn is_ready(checks: &[SubsystemCheck]) -> (r: bool)
    ensures
        r <==> exists|i: int| 0 <= i < checks@.len() && #[trigger] is_cortex_ready(checks@[i]),
{
    let target = String::from_str("cortex_db");
    proof {
        reveal_strlit("cortex_db");
    }
    let mut i: usize = 0;
    while i < checks.len()
        invariant
            0 <= i <= checks.len(),
            target@ == "cortex_db"@,
            forall|j: int| 0 <= j < i ==> !#[trigger] is_cortex_ready(checks@[j]),
        decreases checks.len() - i,
    {
        if checks[i].healthy && checks[i].name == target {
            assert(is_cortex_ready(checks@[i as int]));
            return true;
        }
        i += 1;
    }
    false
}

impl BridgeHealth {
    /// The status tag: `available`, `degraded` or `unavailable`.
    pub fn status_str(&self) -> (r: &'static str)
        ensures
            r@ == match self@ {
                HealthModel::Available => "available"@,
                HealthModel::Degraded(_) => "degraded"@,
                HealthModel::Unavailable => "unavailable"@,
            },
    {
        proof {
            reveal_strlit("available");
            reveal_strlit("degraded");
            reveal_strlit("unavailable");
        }
        match self {
            BridgeHealth::Available => "available",
            BridgeHealth::Degraded(_) => "degraded",
            BridgeHealth::Unavailable => "unavailable",
        }
    }

    /// The degradation reasons: those of `Degraded`, none otherwise.
    pub fn degradation_reasons(&self) -> (r: Vec<String>)
        ensures
            r@.map_values(|s: String| s@) == match self@ {
                HealthModel::Degraded(rs) => rs,
                _ => Seq::empty(),
            },
    {
        match self {
            BridgeHealth::Degraded(v) => {
                let mut out: Vec<String> = Vec::new();
                let mut i: usize = 0;
                while i < v.len()
                    invariant
                        0 <= i <= v.len(),
                        out@ == v@.subrange(0, i as int),
                    decreases v.len() - i,
                {
                    out.push(v[i].clone());
                    assert(out@ =~= v@.subrange(0, i + 1));
                    i += 1;
                }
                assert(out@ =~= v@);
                out
            },
            _ => Vec::new(),
        }
    }
}

/// The check of a subsystem from what probing it found: `None` when it is
/// not configured, else whether the probe succeeded or the error it gave.
pub open spec fn probe_check_spec(name: Seq<char>, probe: Option<Result<(), String>>) -> (bool, Seq<char>) {
    match probe {
        None => (false, "not configured"@),
        Some(Ok(())) => (true, "ok"@),
        Some(Err(m)) => (false, m@),
    }
}

/// Builds the check of subsystem `name`: absent is unhealthy and "not
/// configured"; a probe that succeeded is healthy and "ok"; a failed probe
/// is unhealthy with its error as detail.
pub fn probe_check(name: &str, probe: Option<Result<(), String>>) -> (r: SubsystemCheck)
    ensures
        r.name@ == name@,
        (r.healthy, r.detail@) == probe_check_spec(name@, probe),
{
    proof {
        reveal_strlit("not configured");
        reveal_strlit("ok");
    }
    let (healthy, detail) = match probe {
        None => (false, String::from_str("not configured")),
        Some(Ok(())) => (true, String::from_str("ok")),
        Some(Err(m)) => (false, m),
    };
    SubsystemCheck { name: String::from_str(name), healthy, detail }
}

/// With no checks at all the bridge is unavailable.
pub proof fn law_no_checks_unavailable(cs: Seq<SubsystemCheck>)
    requires
        cs.len() == 0,
    ensures
        health_model(cs) == HealthModel::Unavailable,
{
}

/// The bridge is available exactly when there is at least one check and
/// every check is healthy.
pub proof fn law_available_iff_all_healthy(cs: Seq<SubsystemCheck>)
    ensures
        (health_model(cs) == HealthModel::Available) <==> (cs.len() > 0 && all_healthy(cs)),
{
}

/// A degraded bridge reports one reason per unhealthy check and has at least
/// one healthy and one unhealthy check.
pub proof fn law_degraded_reasons(cs: Seq<SubsystemCheck>)
    ensures
        health_model(cs) is Degraded ==> some_healthy(cs) && !all_healthy(cs)
            && health_model(cs)->Degraded_0 == unhealthy_reasons(cs)
            && unhealthy_reasons(cs).len() > 0,
{
    lemma_reasons_empty_iff_all_healthy(cs);
}

} // verus!
