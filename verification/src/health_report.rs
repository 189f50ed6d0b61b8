//! Health reports of the DPU agent: the probes that passed and the alerts that were raised.

use vstd::prelude::*;

verus! {

/// The probes whose outcome a health report records.
#[derive(Debug, Clone, Copy, PartialEq, Eq, Structural)]
pub enum ProbeId {
    BgpDaemonEnabled,
    BgpStats,
    BgpPeeringTor,
    BgpPeeringRouteServer,
    UnexpectedBgpPeer,
}

/// A probe that failed, with what it failed on.
#[derive(Debug, Clone)]
pub struct HealthProbeAlert {
    pub id: ProbeId,
    pub target: Option<String>,
    pub message: String,
    /// Whether the failure is severe enough to keep the host from being used.
    pub critical: bool,
}

/// A probe that passed.
#[derive(Debug, Clone)]
pub struct HealthProbeSuccess {
    pub id: ProbeId,
    pub target: Option<String>,
}

/// The outcome of the health probes of one source.
#[derive(Debug, Clone)]
pub struct HealthReport {
    pub source: String,
    pub successes: Vec<HealthProbeSuccess>,
    pub alerts: Vec<HealthProbeAlert>,
}

pub struct AlertView {
    pub id: ProbeId,
    pub target: Option<Seq<char>>,
    pub message: Seq<char>,
    pub critical: bool,
}

pub struct SuccessView {
    pub id: ProbeId,
    pub target: Option<Seq<char>>,
}

pub struct ReportView {
    pub source: Seq<char>,
    pub successes: Seq<SuccessView>,
    pub alerts: Seq<AlertView>,
}

/// The view of an optional string.
pub open spec fn opt_view(o: Option<String>) -> Option<Seq<char>> {
    match o {
        Some(s) => Some(s@),
        None => None,
    }
}

impl View for HealthProbeAlert {
    type V = AlertView;

    open spec fn view(&self) -> AlertView {
        AlertView { id: self.id, target: opt_view(self.target), message: self.message@, critical: self.critical }
    }
}

impl View for HealthProbeSuccess {
    type V = SuccessView;

    open spec fn view(&self) -> SuccessView {
        SuccessView { id: self.id, target: opt_view(self.target) }
    }
}

pub open spec fn alert_views(s: Seq<HealthProbeAlert>) -> Seq<AlertView> {
    s.map_values(|a: HealthProbeAlert| a@)
}

pub open spec fn success_views(s: Seq<HealthProbeSuccess>) -> Seq<SuccessView> {
    s.map_values(|a: HealthProbeSuccess| a@)
}

impl View for HealthReport {
    type V = ReportView;

    open spec fn view(&self) -> ReportView {
        ReportView { source: self.source@, successes: success_views(self.successes@), alerts: alert_views(self.alerts@) }
    }
}

/// The alert a failed probe raises.
pub open spec fn alert_of(id: ProbeId, target: Option<Seq<char>>, message: Seq<char>, critical: bool) -> AlertView {
    AlertView { id, target, message, critical }
}

/// The report with one more alert.
pub open spec fn with_alert(r: ReportView, a: AlertView) -> ReportView {
    ReportView { alerts: r.alerts.push(a), ..r }
}

/// The report with one more success.
pub open spec fn with_success(r: ReportView, s: SuccessView) -> ReportView {
    ReportView { successes: r.successes.push(s), ..r }
}

impl HealthReport {
    /// A report of `source` with no probe outcomes yet.
    pub fn empty(source: String) -> (r: HealthReport)
        ensures
            r@ == (ReportView { source: source@, successes: Seq::empty(), alerts: Seq::empty() }),
    {
        let r = HealthReport { source, successes: Vec::new(), alerts: Vec::new() };
        assert(r@.successes =~= Seq::<SuccessView>::empty());
        assert(r@.alerts =~= Seq::<AlertView>::empty());
        r
    }

    /// Whether the report holds an alert of probe `id`.
    pub fn has_alert(&self, id: ProbeId) -> (r: bool)
        ensures
            r == exists|i: int| 0 <= i < self@.alerts.len() && #[trigger] self@.alerts[i].id == id,
    {
        let mut i: usize = 0;
        while i < self.alerts.len()
            invariant
                i <= self.alerts@.len(),
                forall|j: int| 0 <= j < i ==> #[trigger] self@.alerts[j].id != id,
            decreases self.alerts@.len() - i,
        {
            if self.alerts[i].id == id {
                assert(self@.alerts[i as int].id == id);
                return true;
            }
            i = i + 1;
        }
        false
    }
}

/// The alert of a failed probe.
pub fn make_alert(id: ProbeId, target: Option<String>, message: String, critical: bool) -> (r: HealthProbeAlert)
    ensures
        r@ == alert_of(id, opt_view(target), message@, critical),
{
    HealthProbeAlert { id, target, message, critical }
}

/// Records that probe `id` passed.
pub fn passed(hr: &mut HealthReport, id: ProbeId, target: Option<String>)
    ensures
        final(hr)@ == with_success(old(hr)@, SuccessView { id, target: opt_view(target) }),
{
    hr.successes.push(HealthProbeSuccess { id, target });
    assert(final(hr)@.successes =~= old(hr)@.successes.push(SuccessView { id, target: opt_view(target) }));
}

/// Records that probe `id` failed with `message`; such a failure is not critical.
pub fn failed(hr: &mut HealthReport, id: ProbeId, target: Option<String>, message: String)
    ensures
        final(hr)@ == with_alert(old(hr)@, alert_of(id, opt_view(target), message@, false)),
{
    let a = make_alert(id, target, message, false);
    hr.alerts.push(a);
    assert(final(hr)@.alerts =~= old(hr)@.alerts.push(a@));
}

} // verus!
