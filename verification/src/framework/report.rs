//! Diagnostic report structures for module output.

use crate::framework::float_bits::FloatBits;
use crate::framework::severity::Severity;
use vstd::prelude::*;

verus! {

/// Instant at which a report was generated, counted from the Unix epoch in UTC.
#[derive(Debug, Clone, Copy, PartialEq, Eq, Structural, Hash)]
pub struct Timestamp {
    /// Whole seconds since 1970-01-01T00:00:00Z.
    pub secs: i64,
    /// Nanoseconds since the last second boundary.
    pub nanos: u32,
}

/// A single finding (observation) from the diagnostic.
#[derive(Debug, Clone)]
pub struct Finding {
    pub severity: Severity,
    pub category: String,
    pub message: String,
    pub details: Option<String>,
}

/// Mathematical content of a [`Finding`].
pub ghost struct FindingView {
    pub severity: Severity,
    pub category: Seq<char>,
    pub message: Seq<char>,
    pub details: Option<Seq<char>>,
}

/// A recommended action for the user.
#[derive(Debug, Clone)]
pub struct Recommendation {
    /// 1 = highest priority.
    pub priority: u8,
    pub action: String,
    pub command: Option<String>,
    pub explanation: String,
}

/// Mathematical content of a [`Recommendation`].
pub ghost struct RecommendationView {
    pub priority: u8,
    pub action: Seq<char>,
    pub command: Option<Seq<char>>,
    pub explanation: Seq<char>,
}

/// Warning and critical thresholds for numeric metrics.
#[derive(Debug, Clone, Copy, PartialEq, Eq, Structural, Hash)]
pub struct Threshold {
    pub warning: FloatBits,
    pub critical: FloatBits,
}

/// Value of a metric (supports multiple types).
#[derive(Debug, Clone)]
pub enum MetricValue {
    Integer(i64),
    Float(FloatBits),
    Text(String),
    Boolean(bool),
    List(Vec<String>),
}

/// Mathematical content of a [`MetricValue`].
pub ghost enum MetricValueView {
    Integer(i64),
    Float(FloatBits),
    Text(Seq<char>),
    Boolean(bool),
    List(Seq<Seq<char>>),
}

/// A named metric with optional unit and thresholds.
#[derive(Debug, Clone)]
pub struct Metric {
    pub name: String,
    pub value: MetricValue,
    pub unit: Option<String>,
    pub threshold: Option<Threshold>,
}

/// Mathematical content of a [`Metric`].
pub ghost struct MetricView {
    pub name: Seq<char>,
    pub value: MetricValueView,
    pub unit: Option<Seq<char>>,
    pub threshold: Option<Threshold>,
}

/// The text of an optional string.
pub open spec fn opt_text(o: Option<String>) -> Option<Seq<char>> {
    match o {
        Some(s) => Some(s@),
        None => None,
    }
}

impl Threshold {
    /// The thresholds whose bounds have the given bit patterns.
    pub fn of_bits(warning: u64, critical: u64) -> (r: Threshold)
        ensures
            r == (Threshold {
                warning: FloatBits { bits: warning },
                critical: FloatBits { bits: critical },
            }),
    {
        Threshold { warning: FloatBits { bits: warning }, critical: FloatBits { bits: critical } }
    }
}

impl Finding {
    /// A finding with the given fields.
    pub fn new(severity: Severity, category: &str, message: String, details: Option<String>) -> (r:
        Finding)
        ensures
            r@ == (FindingView {
                severity,
                category: category@,
                message: message@,
                details: opt_text(details),
            }),
    {
        Finding { severity, category: category.to_owned(), message, details }
    }
}

impl Recommendation {
    /// A recommendation with the given fields.
    pub fn new(priority: u8, action: String, command: Option<String>, explanation: &str) -> (r:
        Recommendation)
        ensures
            r@ == (RecommendationView {
                priority,
                action: action@,
                command: opt_text(command),
                explanation: explanation@,
            }),
    {
        Recommendation { priority, action, command, explanation: explanation.to_owned() }
    }
}

impl Metric {
    /// A metric with the given fields.
    pub fn new(name: String, value: MetricValue, unit: Option<String>, threshold: Option<
        Threshold,
    >) -> (r: Metric)
        ensures
            r@ == (MetricView { name: name@, value: value@, unit: opt_text(unit), threshold }),
    {
        Metric { name, value, unit, threshold }
    }

    /// A metric that holds a text, without unit or thresholds.
    pub fn text(name: String, value: String) -> (r: Metric)
        ensures
            r@ == (MetricView {
                name: name@,
                value: MetricValueView::Text(value@),
                unit: None,
                threshold: None,
            }),
    {
        Metric { name, value: MetricValue::Text(value), unit: None, threshold: None }
    }

    /// A metric that holds an integer, with an optional unit and no thresholds.
    pub fn integer(name: String, value: i64, unit: Option<String>) -> (r: Metric)
        ensures
            r@ == (MetricView {
                name: name@,
                value: MetricValueView::Integer(value),
                unit: opt_text(unit),
                threshold: None,
            }),
    {
        Metric { name, value: MetricValue::Integer(value), unit, threshold: None }
    }
}

impl View for Finding {
    type V = FindingView;

    open spec fn view(&self) -> FindingView {
        FindingView {
            severity: self.severity,
            category: self.category@,
            message: self.message@,
            details: opt_text(self.details),
        }
    }
}

impl View for Recommendation {
    type V = RecommendationView;

    open spec fn view(&self) -> RecommendationView {
        RecommendationView {
            priority: self.priority,
            action: self.action@,
            command: opt_text(self.command),
            explanation: self.explanation@,
        }
    }
}

impl View for MetricValue {
    type V = MetricValueView;

    open spec fn view(&self) -> MetricValueView {
        match *self {
            MetricValue::Integer(n) => MetricValueView::Integer(n),
            MetricValue::Float(x) => MetricValueView::Float(x),
            MetricValue::Text(s) => MetricValueView::Text(s@),
            MetricValue::Boolean(b) => MetricValueView::Boolean(b),
            MetricValue::List(l) => MetricValueView::List(l@.map_values(|s: String| s@)),
        }
    }
}

impl View for Metric {
    type V = MetricView;

    open spec fn view(&self) -> MetricView {
        MetricView {
            name: self.name@,
            value: self.value@,
            unit: opt_text(self.unit),
            threshold: self.threshold,
        }
    }
}

/// Top-level report produced by a diagnostic module.
#[derive(Debug, Clone)]
pub struct DiagnosticReport {
    /// Module name that produced this report.
    pub module: String,
    /// When the report was generated.
    pub timestamp: Timestamp,
    /// Overall severity (worst of all findings).
    pub overall_severity: Severity,
    /// Short human-readable summary.
    pub summary: String,
    /// Individual findings.
    pub findings: Vec<Finding>,
    /// Recommended actions.
    pub recommendations: Vec<Recommendation>,
    /// Numeric/text metrics (e.g. CPU %, load).
    pub metrics: Vec<Metric>,
    /// Optional raw data for debugging or scripting, as JSON text.
    pub raw_data: Option<String>,
}

/// Mathematical content of a [`DiagnosticReport`].
pub ghost struct ReportView {
    pub module: Seq<char>,
    pub timestamp: Timestamp,
    pub overall_severity: Severity,
    pub summary: Seq<char>,
    pub findings: Seq<FindingView>,
    pub recommendations: Seq<RecommendationView>,
    pub metrics: Seq<MetricView>,
    pub raw_data: Option<Seq<char>>,
}

impl View for DiagnosticReport {
    type V = ReportView;

    open spec fn view(&self) -> ReportView {
        ReportView {
            module: self.module@,
            timestamp: self.timestamp,
            overall_severity: self.overall_severity,
            summary: self.summary@,
            findings: self.findings@.map_values(|f: Finding| f@),
            recommendations: self.recommendations@.map_values(|r: Recommendation| r@),
            metrics: self.metrics@.map_values(|m: Metric| m@),
            raw_data: opt_text(self.raw_data),
        }
    }
}

/// The severities of a sequence of findings, in order.
pub open spec fn severities(findings: Seq<FindingView>) -> Seq<Severity> {
    findings.map_values(|f: FindingView| f.severity)
}

/// Folding `max` over a sequence of severities, starting from `Okay`.
pub open spec fn worst_of(levels: Seq<Severity>) -> Severity
    decreases levels.len(),
{
    if levels.len() == 0 {
        Severity::Okay
    } else {
        worst_of(levels.drop_last()).spec_max(levels.last())
    }
}

impl ReportView {
    /// The overall severity is the maximum severity over the findings.
    pub open spec fn severity_current(self) -> bool {
        self.overall_severity == worst_of(severities(self.findings))
    }

    /// A report as construction leaves it: no findings, metrics or
    /// recommendations, no raw data, and overall severity `Okay`.
    pub open spec fn is_fresh(self, module: Seq<char>, summary: Seq<char>) -> bool {
        &&& self.module == module
        &&& self.summary == summary
        &&& self.overall_severity == Severity::Okay
        &&& self.findings == Seq::<FindingView>::empty()
        &&& self.recommendations == Seq::<RecommendationView>::empty()
        &&& self.metrics == Seq::<MetricView>::empty()
        &&& self.raw_data == None::<Seq<char>>
    }

    /// The report after appending the finding `f` with the side effect on the
    /// overall severity.
    pub open spec fn with_finding(self, f: FindingView) -> ReportView {
        ReportView {
            overall_severity: self.overall_severity.spec_max(f.severity),
            findings: self.findings.push(f),
            ..self
        }
    }

    /// The report after appending the metric `m`.
    pub open spec fn with_metric(self, m: MetricView) -> ReportView {
        ReportView { metrics: self.metrics.push(m), ..self }
    }

    /// The report after appending the recommendation `r`.
    pub open spec fn with_recommendation(self, r: RecommendationView) -> ReportView {
        ReportView { recommendations: self.recommendations.push(r), ..self }
    }

    /// The report with its overall severity derived afresh from its findings.
    pub open spec fn recomputed(self) -> ReportView {
        ReportView { overall_severity: worst_of(severities(self.findings)), ..self }
    }
}

/// Reads the system clock through `chrono::Utc::now` and returns the instant as
/// `DateTime::timestamp` and `DateTime::timestamp_subsec_nanos` give it. Nothing
/// is claimed of the value: it depends on when the call is made.
#[verifier::external_body]
fn clock_now() -> Timestamp {
    let now = chrono::Utc::now();
    Timestamp { secs: now.timestamp(), nanos: now.timestamp_subsec_nanos() }
}

impl DiagnosticReport {
    /// Build a report with the given module name and summary; other fields default.
    pub fn new(module: &str, summary: &str) -> (r: DiagnosticReport)
        ensures
            r@.is_fresh(module@, summary@),
            r@.severity_current(),
    {
        let r = DiagnosticReport {
            module: module.to_owned(),
            timestamp: clock_now(),
            overall_severity: Severity::Okay,
            summary: summary.to_owned(),
            findings: Vec::new(),
            recommendations: Vec::new(),
            metrics: Vec::new(),
            raw_data: None,
        };
        assert(r@.findings =~= Seq::<FindingView>::empty());
        assert(r@.recommendations =~= Seq::<RecommendationView>::empty());
        assert(r@.metrics =~= Seq::<MetricView>::empty());
        assert(severities(r@.findings) =~= Seq::<Severity>::empty());
        r
    }

    /// Set overall severity from the maximum of findings.
    pub fn compute_overall_severity(&mut self)
        ensures
            final(self)@ == old(self)@.recomputed(),
            final(self)@.severity_current(),
    {
        let mut worst = Severity::Okay;
        let mut i: usize = 0;
        while i < self.findings.len()
            invariant
                i <= self.findings.len(),
                *self == *old(self),
                worst == worst_of(severities(self@.findings).take(i as int)),
            decreases self.findings.len() - i,
        {
            proof {
                let all = severities(self@.findings);
                assert(all.take(i + 1).drop_last() =~= all.take(i as int));
                assert(all.take(i + 1).last() == self.findings[i as int].severity);
            }
            worst = worst.max(self.findings[i].severity);
            i += 1;
        }
        proof {
            let all = severities(self@.findings);
            assert(all.take(i as int) =~= all);
        }
        self.overall_severity = worst;
    }

    /// Add a finding, raising the overall severity to at least its level.
    pub fn add_finding(&mut self, finding: Finding)
        ensures
            final(self)@ == old(self)@.with_finding(finding@),
            old(self)@.severity_current() ==> final(self)@.severity_current(),
    {
        proof {
            let before = severities(old(self)@.findings);
            let after = severities(old(self)@.findings.push(finding@));
            assert(after.drop_last() =~= before);
            assert(after.last() == finding.severity);
        }
        self.overall_severity = self.overall_severity.max(finding.severity);
        self.findings.push(finding);
        assert(self@.findings =~= old(self)@.findings.push(finding@));
    }

    /// Appends a metric; the report is extended by it.
    pub fn push_metric(&mut self, metric: Metric)
        ensures
            extends(old(self)@, final(self)@, Seq::empty(), seq![metric@]),
    {
        self.add_metric(metric);
        assert(self@.metrics =~= old(self)@.metrics + seq![metric@]);
        assert(self@.findings =~= old(self)@.findings + Seq::<FindingView>::empty());
    }

    /// Appends a finding; the report is extended by it.
    pub fn push_finding(&mut self, finding: Finding)
        ensures
            extends(old(self)@, final(self)@, seq![finding@], Seq::empty()),
    {
        self.add_finding(finding);
        assert(self@.findings =~= old(self)@.findings + seq![finding@]);
        assert(self@.metrics =~= old(self)@.metrics + Seq::<MetricView>::empty());
    }

    /// Whether one of the findings has the given category.
    pub fn any_category(&self, category: &str) -> (r: bool)
        ensures
            r == has_category(self@.findings, category@),
    {
        let mut i: usize = 0;
        while i < self.findings.len()
            invariant
                i <= self.findings.len(),
                forall|j: int| 0 <= j < i ==> (#[trigger] self@.findings[j]).category != category@,
            decreases self.findings.len() - i,
        {
            if crate::utils::text::str_eq(self.findings[i].category.as_str(), category) {
                assert(self@.findings[i as int].category == category@);
                return true;
            }
            i += 1;
        }
        false
    }

    /// Whether one of the findings is at least as severe as `floor`.
    pub fn any_severity_from(&self, floor: Severity) -> (r: bool)
        ensures
            r == has_severity_from(self@.findings, floor),
    {
        let mut i: usize = 0;
        while i < self.findings.len()
            invariant
                i <= self.findings.len(),
                forall|j: int|
                    0 <= j < i ==> (#[trigger] self@.findings[j]).severity.rank() < floor.rank(),
            decreases self.findings.len() - i,
        {
            if self.findings[i].severity.at_least(floor) {
                assert(self@.findings[i as int].severity.rank() >= floor.rank());
                return true;
            }
            i += 1;
        }
        false
    }

    /// Add a recommendation.
    pub fn add_recommendation(&mut self, rec: Recommendation)
        ensures
            final(self)@ == old(self)@.with_recommendation(rec@),
            old(self)@.severity_current() ==> final(self)@.severity_current(),
    {
        self.recommendations.push(rec);
        assert(self@.recommendations =~= old(self)@.recommendations.push(rec@));
    }

    /// Add a metric.
    pub fn add_metric(&mut self, metric: Metric)
        ensures
            final(self)@ == old(self)@.with_metric(metric@),
            old(self)@.severity_current() ==> final(self)@.severity_current(),
    {
        self.metrics.push(metric);
        assert(self@.metrics =~= old(self)@.metrics.push(metric@));
    }
}

/// Whether `after` is `before` with `findings` and `metrics` appended, the
/// overall severity kept current where it was.
pub open spec fn extends(
    before: ReportView,
    after: ReportView,
    findings: Seq<FindingView>,
    metrics: Seq<MetricView>,
) -> bool {
    &&& after == (ReportView {
        findings: before.findings + findings,
        metrics: before.metrics + metrics,
        overall_severity: after.overall_severity,
        ..before
    })
    &&& before.severity_current() ==> after.severity_current()
}

/// Appending in two steps is appending the two parts one after the other.
pub proof fn lemma_extends_twice(
    a: ReportView,
    b: ReportView,
    c: ReportView,
    f1: Seq<FindingView>,
    m1: Seq<MetricView>,
    f2: Seq<FindingView>,
    m2: Seq<MetricView>,
)
    requires
        extends(a, b, f1, m1),
        extends(b, c, f2, m2),
    ensures
        extends(a, c, f1 + f2, m1 + m2),
{
    assert(a.findings + (f1 + f2) =~= (a.findings + f1) + f2);
    assert(a.metrics + (m1 + m2) =~= (a.metrics + m1) + m2);
}

/// Appending nothing changes nothing.
pub proof fn lemma_extends_none(a: ReportView)
    ensures
        extends(a, a, Seq::empty(), Seq::empty()),
{
    assert(a.findings + Seq::<FindingView>::empty() =~= a.findings);
    assert(a.metrics + Seq::<MetricView>::empty() =~= a.metrics);
}

/// Whether one of the findings has the given category.
pub open spec fn has_category(findings: Seq<FindingView>, category: Seq<char>) -> bool {
    exists|i: int| 0 <= i < findings.len() && (#[trigger] findings[i]).category == category
}

/// Whether one of the findings is at least as severe as `floor`.
pub open spec fn has_severity_from(findings: Seq<FindingView>, floor: Severity) -> bool {
    exists|i: int| 0 <= i < findings.len() && (#[trigger] findings[i]).severity.rank() >= floor.rank()
}

/// The finalized report that holds the given parts, generated at `at`: its
/// overall severity is the maximum over its findings, and it carries no raw data.
pub open spec fn assembled(
    module: Seq<char>,
    summary: Seq<char>,
    at: Timestamp,
    findings: Seq<FindingView>,
    metrics: Seq<MetricView>,
    recommendations: Seq<RecommendationView>,
) -> ReportView {
    ReportView {
        module,
        timestamp: at,
        overall_severity: worst_of(severities(findings)),
        summary,
        findings,
        recommendations,
        metrics,
        raw_data: None,
    }
}

/// A report after appending each finding of `fs` in order.
pub open spec fn appended(r: ReportView, fs: Seq<FindingView>) -> ReportView
    decreases fs.len(),
{
    if fs.len() == 0 {
        r
    } else {
        appended(r, fs.drop_last()).with_finding(fs.last())
    }
}

/// The fold of `max` over no severities is `Okay`.
pub proof fn lemma_worst_of_empty()
    ensures
        worst_of(Seq::<Severity>::empty()) == Severity::Okay,
{
}

/// The fold of `max` is the least upper bound of the levels: it ranks at least
/// as high as each of them, and it is `Okay` or occurs among them.
pub proof fn lemma_worst_of_is_maximum(levels: Seq<Severity>)
    ensures
        forall|i: int| 0 <= i < levels.len() ==> levels[i].rank() <= worst_of(levels).rank(),
        worst_of(levels) == Severity::Okay || exists|i: int|
            0 <= i < levels.len() && levels[i] == worst_of(levels),
    decreases levels.len(),
{
    if levels.len() > 0 {
        let front = levels.drop_last();
        lemma_worst_of_is_maximum(front);
        assert forall|i: int| 0 <= i < levels.len() implies levels[i].rank() <= worst_of(
            levels,
        ).rank() by {
            if i < front.len() {
                assert(front[i] == levels[i]);
            }
        }
        if worst_of(levels) != Severity::Okay {
            if worst_of(levels) == levels.last() {
                assert(levels[levels.len() - 1] == worst_of(levels));
            } else {
                let k = choose|k: int| 0 <= k < front.len() && front[k] == worst_of(front);
                assert(levels[k] == worst_of(levels));
            }
        }
    }
}

/// After appending any finite sequence of findings to a report whose overall
/// severity is current, the overall severity is the fold of `max` over all the
/// findings it then holds; nothing but the findings and the overall severity
/// changes.
pub proof fn lemma_appends_keep_severity_current(r: ReportView, fs: Seq<FindingView>)
    requires
        r.severity_current(),
    ensures
        appended(r, fs).severity_current(),
        appended(r, fs).findings == r.findings + fs,
        appended(r, fs) == (ReportView {
            overall_severity: appended(r, fs).overall_severity,
            findings: r.findings + fs,
            ..r
        }),
    decreases fs.len(),
{
    if fs.len() == 0 {
        assert(r.findings + fs =~= r.findings);
    } else {
        let front = fs.drop_last();
        lemma_appends_keep_severity_current(r, front);
        let mid = appended(r, front);
        assert((r.findings + front).push(fs.last()) =~= r.findings + fs);
        let after = severities(mid.findings.push(fs.last()));
        assert(after.drop_last() =~= severities(mid.findings));
        assert(after.last() == fs.last().severity);
    }
}

/// After all appends to a freshly constructed report, the overall severity
/// equals the fold of `max` from `Okay` over the severities of the appended
/// findings.
pub proof fn lemma_overall_severity_is_fold(
    r: ReportView,
    module: Seq<char>,
    summary: Seq<char>,
    fs: Seq<FindingView>,
)
    requires
        r.is_fresh(module, summary),
    ensures
        appended(r, fs).overall_severity == worst_of(severities(fs)),
        appended(r, fs).findings == fs,
{
    assert(severities(r.findings) =~= Seq::<Severity>::empty());
    lemma_appends_keep_severity_current(r, fs);
    assert(r.findings + fs =~= fs);
}

/// Once a `Critical` finding has been appended, the overall severity is
/// `Critical` whatever is appended afterwards.
pub proof fn lemma_critical_is_sticky(r: ReportView, fs: Seq<FindingView>, k: int)
    requires
        0 <= k < fs.len(),
        fs[k].severity == Severity::Critical,
    ensures
        appended(r, fs).overall_severity == Severity::Critical,
    decreases fs.len(),
{
    if k < fs.len() - 1 {
        let front = fs.drop_last();
        assert(front[k] == fs[k]);
        lemma_critical_is_sticky(r, front, k);
    }
}

/// Recomputing the overall severity of a report whose overall severity is
/// current changes nothing, and recomputing twice is the same as once.
pub proof fn lemma_recompute_idempotent(r: ReportView)
    ensures
        r.severity_current() ==> r.recomputed() == r,
        r.recomputed().severity_current(),
        r.recomputed().recomputed() == r.recomputed(),
{
}

/// The incremental update of `add_finding` and the recompute from scratch
/// agree on every report whose overall severity was current.
pub proof fn lemma_append_agrees_with_recompute(r: ReportView, f: FindingView)
    requires
        r.severity_current(),
    ensures
        r.with_finding(f).recomputed() == r.with_finding(f),
{
    let after = severities(r.findings.push(f));
    assert(after.drop_last() =~= severities(r.findings));
    assert(after.last() == f.severity);
}

/// A report with a single finding has that finding's severity.
pub proof fn lemma_single_finding(f: FindingView)
    ensures
        worst_of(severities(seq![f])) == f.severity,
{
    let levels = severities(seq![f]);
    assert(levels.drop_last() =~= Seq::<Severity>::empty());
    assert(worst_of(levels.drop_last()) == Severity::Okay);
    assert(levels.last() == f.severity);
}

} // verus!
