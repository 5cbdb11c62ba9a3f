//! Boot performance analysis: total boot time and slow services via systemd.

use crate::framework::float_bits::{FloatBits, Reading, BITS_15, BITS_30, BITS_5};
use crate::framework::report::{
    assembled, opt_text, severities, worst_of, DiagnosticReport, Finding, FindingView, Metric,
    MetricValue, MetricValueView, MetricView, Recommendation, RecommendationView, ReportView,
    Threshold, Timestamp,
};
use crate::framework::severity::Severity;
use crate::framework::traits::{
    DiagnosticModule, ExecutionError, ExecutionErrorView, ModuleConfig, ModuleConfigView,
};
use crate::utils::pattern::{capture, regex_group_of};
use crate::utils::ranking::{rank_descending, ranking};
use crate::utils::split::{lines, lines_of, texts};
use crate::utils::text::{cat2, cat3, contains_text, str_contains};
use crate::utils::math::at_most;
use vstd::prelude::*;

verus! {

/// The bit pattern of 1000.0.
pub const BITS_1000: u64 = 0x408f_4000_0000_0000;

/// One line of the output of `systemd-analyze blame`.
#[derive(Debug, Clone)]
pub struct BlameLine {
    /// The line as it was printed.
    pub text: String,
    /// The number at the start of the line, 0 where it has none.
    pub millis: FloatBits,
    /// That number divided by 1000, rendered with two decimals.
    pub secs: Reading,
}

/// What the boot module reads from the host.
#[derive(Debug, Clone)]
pub struct BootProbe {
    /// `systemd-analyze` is installed.
    pub systemd_found: bool,
    /// What `systemd-analyze time` printed, `None` where it failed.
    pub time_output: Option<String>,
    /// The total boot time in seconds that this output states, rendered with
    /// one decimal.
    pub total: Option<Reading>,
    /// The lines that `systemd-analyze blame` printed, `None` where it failed.
    pub blame: Option<Vec<BlameLine>>,
}

/// The boot module, on what it read.
#[derive(Debug, Clone)]
pub struct BootModule {
    pub probe: BootProbe,
}

/// The regular expression of a number of seconds.
pub open spec fn seconds_pattern() -> Seq<char> {
    "(\\d+\\.?\\d*)\\s*s"@
}

/// The regular expression of a line that blames a service.
pub open spec fn blame_pattern() -> Seq<char> {
    "^\\s*(\\d+\\.?\\d*)\\s*(.+)\\.service"@
}

/// Whether a line may state the total: it holds `= ` and an `s`.
pub open spec fn states_total(line: Seq<char>) -> bool {
    contains_text(line, "= "@) && contains_text(line, "s"@)
}

/// The text of the total boot time in the first of the lines from `i` on
/// that may state it.
pub open spec fn total_text_from(ls: Seq<Seq<char>>, i: int) -> Option<Seq<char>>
    decreases ls.len() - i,
{
    if 0 <= i < ls.len() {
        if states_total(ls[i]) {
            regex_group_of(seconds_pattern(), ls[i], 1)
        } else {
            total_text_from(ls, i + 1)
        }
    } else {
        None
    }
}

/// The text of the total boot time that `systemd-analyze time` printed.
pub open spec fn total_text_of(output: Option<String>) -> Option<Seq<char>> {
    match output {
        Some(out) => total_text_from(lines_of(out@), 0),
        None => None,
    }
}

/// The total boot time of a probe: the reading, where the output states a total.
pub open spec fn total_of(probe: BootProbe) -> Option<Reading> {
    if total_text_of(probe.time_output) is Some {
        probe.total
    } else {
        None
    }
}

/// The name of the service that a line blames.
pub open spec fn blamed(line: BlameLine) -> Option<Seq<char>> {
    if regex_group_of(blame_pattern(), line.text@, 0) is Some {
        Some(
            match regex_group_of(blame_pattern(), line.text@, 2) {
                Some(name) => name,
                None => Seq::empty(),
            },
        )
    } else {
        None
    }
}

/// A service that took long to start.
pub ghost struct SlowService {
    pub name: Seq<char>,
    pub secs: Reading,
}

/// The services among the first `n` lines that took a second or more.
pub open spec fn slow_upto(blame: Seq<BlameLine>, n: int) -> Seq<SlowService>
    decreases n,
{
    if n <= 0 {
        Seq::empty()
    } else if blamed(blame[n - 1]) is Some && blame[n - 1].millis.spec_ge(
        FloatBits { bits: BITS_1000 },
    ) {
        slow_upto(blame, n - 1).push(
            SlowService { name: blamed(blame[n - 1])->0, secs: blame[n - 1].secs },
        )
    } else {
        slow_upto(blame, n - 1)
    }
}

/// The finding on a slow service: a warning above 5 seconds, else a note.
pub open spec fn service_finding(s: SlowService) -> FindingView {
    FindingView {
        severity: if s.secs.value.spec_gt(FloatBits { bits: BITS_5 }) {
            Severity::Warning
        } else {
            Severity::Info
        },
        category: "service"@,
        message: s.name + " took "@ + s.secs.text@ + "s to start"@,
        details: Some(
            "Consider masking or disabling if not needed: systemctl disable "@ + s.name
                + ".service"@,
        ),
    }
}

/// The keys by which slow services are ranked.
pub open spec fn keys_of(slow: Seq<SlowService>) -> Seq<u64> {
    slow.map_values(|s: SlowService| s.secs.value.spec_order_key())
}

/// The findings on the first `n` services of a ranking.
pub open spec fn service_findings_upto(slow: Seq<SlowService>, order: Seq<int>, n: int) -> Seq<
    FindingView,
>
    decreases n,
{
    if n <= 0 {
        Seq::empty()
    } else {
        service_findings_upto(slow, order, n - 1).push(service_finding(slow[order[n - 1]]))
    }
}

/// The findings on the `top_n` slowest services.
pub open spec fn slowest_findings(probe: BootProbe, top_n: usize) -> Seq<FindingView> {
    match probe.blame {
        Some(blame) => {
            let slow = slow_upto(blame@, blame.len() as int);
            service_findings_upto(
                slow,
                ranking(keys_of(slow), slow.len() as int),
                at_most(top_n as int, slow.len() as int),
            )
        },
        None => Seq::empty(),
    }
}

/// The metric of the total boot time, with thresholds at 15 and 30 seconds.
pub open spec fn total_metrics(total: Option<Reading>) -> Seq<MetricView> {
    match total {
        Some(t) => seq![
            MetricView {
                name: "Total boot time"@,
                value: MetricValueView::Float(t.value),
                unit: Some("s"@),
                threshold: Some(
                    Threshold {
                        warning: FloatBits { bits: BITS_15 },
                        critical: FloatBits { bits: BITS_30 },
                    },
                ),
            },
        ],
        None => Seq::empty(),
    }
}

/// The warning of a boot that took more than 30 seconds.
pub open spec fn total_findings(total: Option<Reading>) -> Seq<FindingView> {
    match total {
        Some(t) => if t.value.spec_gt(FloatBits { bits: BITS_30 }) {
            seq![
                FindingView {
                    severity: Severity::Warning,
                    category: "boot"@,
                    message: "Boot took "@ + t.text@
                        + "s; consider disabling unnecessary services."@,
                    details: Some("Run 'systemd-analyze blame' to see slow units."@),
                },
            ]
        } else {
            Seq::empty()
        },
        None => Seq::empty(),
    }
}

/// The boot report for what was read, generated at `at`.
pub open spec fn boot_report(probe: BootProbe, config: ModuleConfigView, at: Timestamp) -> ReportView {
    if !probe.systemd_found {
        assembled(
            "boot"@,
            "Boot analysis (systemd)"@,
            at,
            seq![
                FindingView {
                    severity: Severity::Warning,
                    category: "boot"@,
                    message: "systemd-analyze not found; boot analysis requires systemd."@,
                    details: Some("Install systemd or run on a systemd-based distribution."@),
                },
            ],
            Seq::empty(),
            Seq::empty(),
        )
    } else {
        let total = total_of(probe);
        let findings = total_findings(total) + slowest_findings(probe, config.top_n);
        let metrics = total_metrics(total);
        let quiet = findings.len() == 0 && metrics.len() == 0;
        assembled(
            "boot"@,
            if quiet {
                "Boot time within normal range; no slow services reported."@
            } else {
                "Boot analysis (systemd)"@
            },
            at,
            findings,
            metrics,
            if !quiet && worst_of(severities(findings)) == Severity::Okay {
                seq![
                    RecommendationView {
                        priority: 2,
                        action: "Review slow services with 'systemd-analyze blame' and disable unneeded ones."@,
                        command: Some("systemctl list-unit-files --state=enabled"@),
                        explanation: "Reducing enabled services can speed up boot."@,
                    },
                ]
            } else {
                Seq::empty()
            },
        )
    }
}

/// The text of the total boot time that `systemd-analyze time` printed: the
/// number before the first `s` in the first line that holds `= ` and an `s`.
pub fn total_text(output: &Option<String>) -> (r: Option<String>)
    ensures
        opt_text(r) == total_text_of(*output),
{
    if let Some(out) = output {
        let ls = lines(out.as_str());
        let mut i: usize = 0;
        while i < ls.len()
            invariant
                i <= ls.len(),
                *output == Some(*out),
                texts(ls@) == lines_of(out@),
                total_text_from(texts(ls@), 0) == total_text_from(texts(ls@), i as int),
            decreases ls.len() - i,
        {
            let line = ls[i].as_str();
            assert(texts(ls@)[i as int] == line@);
            if str_contains(line, "= ") && str_contains(line, "s") {
                return capture("(\\d+\\.?\\d*)\\s*s", line, 1);
            }
            i += 1;
        }
    }
    None
}

/// The name of the service that a line of `systemd-analyze blame` blames.
pub fn blamed_service(line: &BlameLine) -> (r: Option<String>)
    ensures
        opt_text(r) == blamed(*line),
{
    let pattern = "^\\s*(\\d+\\.?\\d*)\\s*(.+)\\.service";
    if capture(pattern, line.text.as_str(), 0).is_none() {
        return None;
    }
    match capture(pattern, line.text.as_str(), 2) {
        Some(name) => Some(name),
        None => Some(String::new()),
    }
}

/// The text of the number at the start of a line of `systemd-analyze blame`.
pub fn blamed_millis_text(text: &str) -> (r: Option<String>)
    ensures
        opt_text(r) == regex_group_of(blame_pattern(), text@, 1),
{
    capture("^\\s*(\\d+\\.?\\d*)\\s*(.+)\\.service", text, 1)
}

/// A slow service with its name as a string.
struct Slow {
    name: String,
    secs: Reading,
}

/// The content of a slow service.
spec fn slow_view(s: Slow) -> SlowService {
    SlowService { name: s.name@, secs: s.secs }
}

/// Appends the findings on the `top_n` slowest services.
fn add_slowest(report: &mut DiagnosticReport, probe: &BootProbe, top_n: usize)
    ensures
        final(report)@ == (ReportView {
            findings: old(report)@.findings + slowest_findings(*probe, top_n),
            overall_severity: final(report)@.overall_severity,
            ..old(report)@
        }),
        old(report)@.severity_current() ==> final(report)@.severity_current(),
{
    let ghost start = report@;
    let blame = match &probe.blame {
        Some(blame) => blame,
        None => {
            assert(report@.findings =~= start.findings + slowest_findings(*probe, top_n));
            return ;
        },
    };
    let mut slow: Vec<Slow> = Vec::new();
    let mut keys: Vec<u64> = Vec::new();
    let mut k: usize = 0;
    assert(slow@.map_values(|s: Slow| slow_view(s)) =~= slow_upto(blame@, 0));
    assert(keys@ =~= keys_of(slow_upto(blame@, 0)));
    while k < blame.len()
        invariant
            k <= blame.len(),
            slow@.map_values(|s: Slow| slow_view(s)) == slow_upto(blame@, k as int),
            keys@ == keys_of(slow_upto(blame@, k as int)),
        decreases blame.len() - k,
    {
        let ghost before = slow@.map_values(|s: Slow| slow_view(s));
        let line = &blame[k];
        if let Some(name) = blamed_service(line) {
            if line.millis.ge(FloatBits::new(BITS_1000)) {
                let item = Slow { name, secs: line.secs.duplicate() };
                assert(item.secs == line.secs);
                keys.push(item.secs.value.order_key());
                slow.push(item);
                assert(slow@.map_values(|s: Slow| slow_view(s)) =~= before.push(slow_view(item)));
                assert(keys@ =~= keys_of(before.push(slow_view(item))));
            }
        }
        k += 1;
    }
    let ghost all = slow@.map_values(|s: Slow| slow_view(s));
    let order = rank_descending(&keys);
    let ghost ranks = order@.map_values(|i: usize| i as int);
    let top: usize = if top_n <= slow.len() {
        top_n
    } else {
        slow.len()
    };
    let mut i: usize = 0;
    assert(report@.findings =~= start.findings + service_findings_upto(all, ranks, 0));
    while i < top
        invariant
            i <= top <= slow.len(),
            order.len() == slow.len(),
            all == slow@.map_values(|s: Slow| slow_view(s)),
            ranks == order@.map_values(|i: usize| i as int),
            forall|j: int| 0 <= j < order.len() ==> (#[trigger] order[j]) < slow.len(),
            start.severity_current() ==> report@.severity_current(),
            report@ == (ReportView {
                findings: start.findings + service_findings_upto(all, ranks, i as int),
                overall_severity: report@.overall_severity,
                ..start
            }),
        decreases top - i,
    {
        assert(ranks[i as int] == order[i as int] as int);
        let s = &slow[order[i]];
        assert(all[order[i as int] as int] == slow_view(*s));
        report.add_finding(
            Finding::new(
                if s.secs.value.gt(FloatBits::new(BITS_5)) {
                    Severity::Warning
                } else {
                    Severity::Info
                },
                "service",
                cat2(
                    cat3(s.name.as_str(), " took ", s.secs.text.as_str()).as_str(),
                    "s to start",
                ),
                Some(
                    cat3(
                        "Consider masking or disabling if not needed: systemctl disable ",
                        s.name.as_str(),
                        ".service",
                    ),
                ),
            ),
        );
        assert(report@.findings =~= start.findings + service_findings_upto(all, ranks, i + 1));
        i += 1;
    }
}

/// The boot report for what was read: a warning where `systemd-analyze` is
/// missing, else the total boot time and the slowest services.
pub fn report(probe: &BootProbe, config: &ModuleConfig) -> (r: DiagnosticReport)
    ensures
        r@ == boot_report(*probe, config@, r@.timestamp),
        r@.severity_current(),
{
    let mut report = DiagnosticReport::new("boot", "Boot analysis (systemd)");
    if !probe.systemd_found {
        report.add_finding(
            Finding::new(
                Severity::Warning,
                "boot",
                "systemd-analyze not found; boot analysis requires systemd.".to_owned(),
                Some("Install systemd or run on a systemd-based distribution.".to_owned()),
            ),
        );
        assert(report@.findings =~= boot_report(*probe, config@, report@.timestamp).findings);
        return report;
    }
    if total_text(&probe.time_output).is_some() {
        if let Some(t) = &probe.total {
            report.add_metric(
                Metric::new(
                    "Total boot time".to_owned(),
                    MetricValue::Float(t.value),
                    Some("s".to_owned()),
                    Some(Threshold::of_bits(BITS_15, BITS_30)),
                ),
            );
            if t.value.gt(FloatBits::new(BITS_30)) {
                report.add_finding(
                    Finding::new(
                        Severity::Warning,
                        "boot",
                        cat3(
                            "Boot took ",
                            t.text.as_str(),
                            "s; consider disabling unnecessary services.",
                        ),
                        Some("Run 'systemd-analyze blame' to see slow units.".to_owned()),
                    ),
                );
            }
        }
    }
    assert(report@.metrics =~= total_metrics(total_of(*probe)));
    assert(report@.findings =~= total_findings(total_of(*probe)));
    add_slowest(&mut report, probe, config.top_n);
    if report.findings.len() == 0 && report.metrics.len() == 0 {
        report.summary = "Boot time within normal range; no slow services reported.".to_owned();
    } else if report.overall_severity.level() == 0 {
        report.add_recommendation(
            Recommendation::new(
                2,
                "Review slow services with 'systemd-analyze blame' and disable unneeded ones.".to_owned(),
                Some("systemctl list-unit-files --state=enabled".to_owned()),
                "Reducing enabled services can speed up boot.",
            ),
        );
    }
    report.compute_overall_severity();
    proof {
        let want = boot_report(*probe, config@, report@.timestamp);
        assert(report@.recommendations =~= want.recommendations);
    }
    report
}

impl DiagnosticModule for BootModule {
    open spec fn name_text(&self) -> Seq<char> {
        "boot"@
    }

    open spec fn description_text(&self) -> Seq<char> {
        "Analyze boot performance and slow services via systemd"@
    }

    open spec fn available(&self) -> bool {
        self.probe.systemd_found
    }

    open spec fn run_allows(
        &self,
        config: ModuleConfigView,
        outcome: Result<ReportView, ExecutionErrorView>,
    ) -> bool {
        outcome matches Ok(r) && r == boot_report(self.probe, config, r.timestamp)
    }

    fn name(&self) -> (r: &'static str) {
        "boot"
    }

    fn description(&self) -> (r: &'static str) {
        "Analyze boot performance and slow services via systemd"
    }

    fn is_available(&self) -> (b: bool) {
        self.probe.systemd_found
    }

    fn run(&self, config: &ModuleConfig) -> (r: Result<DiagnosticReport, ExecutionError>) {
        Ok(report(&self.probe, config))
    }
}

/// The boot module on what was read from the host.
pub fn module(probe: BootProbe) -> (m: BootModule)
    ensures
        m.probe == probe,
{
    BootModule { probe }
}

} // verus!
