//! Battery drain explanation: power supplies, charge level, energy and power.

use crate::framework::float_bits::{BITS_10, BITS_20};
use crate::framework::report::{
    assembled, severities, worst_of, DiagnosticReport, Finding, FindingView, Metric, MetricValue,
    MetricValueView, MetricView, Recommendation, RecommendationView, ReportView, Threshold,
    Timestamp,
};
use crate::framework::severity::Severity;
use crate::framework::traits::{
    DiagnosticModule, ExecutionError, ExecutionErrorView, ModuleConfig, ModuleConfigView,
    Permission,
};
use crate::utils::files::{first_line, first_line_text};
use crate::utils::format::{i64_to_string, signed_text};
use crate::utils::math::{as_signed, to_signed};
use crate::utils::parse::{i64_of, parse_i64, parse_u64, u64_of};
use crate::utils::text::{
    cat2, cat3, contains_text, lowercase_of, str_contains, to_lowercase, trimmed,
};
use vstd::prelude::*;

verus! {

/// One entry of `/sys/class/power_supply` as it was read: the entry's file
/// name and the contents of its attribute files, `None` where a file is
/// missing or unreadable.
#[derive(Debug, Clone)]
pub struct PowerSupply {
    pub name: String,
    pub kind: Option<String>,
    pub status: Option<String>,
    pub capacity: Option<String>,
    pub energy_now: Option<String>,
    pub power_now: Option<String>,
}

/// What the battery module reads from the host.
#[derive(Debug, Clone)]
pub struct BattProbe {
    /// `/sys/class/power_supply` exists.
    pub class_present: bool,
    /// Its entries, in the order in which the directory lists them.
    pub supplies: Vec<PowerSupply>,
}

/// The battery module, on what it read.
#[derive(Debug, Clone)]
pub struct BattModule {
    pub probe: BattProbe,
}

/// The first line of an attribute, or the empty text.
pub open spec fn line_or_empty(content: Option<String>) -> Seq<char> {
    match first_line_text(content) {
        Some(line) => line,
        None => Seq::empty(),
    }
}

/// Whether the entry's type names a battery, in any letter case.
pub open spec fn is_battery(s: PowerSupply) -> bool {
    contains_text(lowercase_of(line_or_empty(s.kind)), "battery"@)
}

/// The charge level in percent, where the entry states one.
pub open spec fn charge_of(s: PowerSupply) -> Option<i64> {
    match first_line_text(s.capacity) {
        Some(line) => i64_of(trimmed(line)),
        None => None,
    }
}

/// The number that an attribute holds, where it holds one.
pub open spec fn reading_of(content: Option<String>) -> Option<u64> {
    match first_line_text(content) {
        Some(line) => u64_of(trimmed(line)),
        None => None,
    }
}

/// The metric of a battery's status.
pub open spec fn status_metrics(s: PowerSupply) -> Seq<MetricView> {
    match first_line_text(s.status) {
        Some(status) => seq![
            MetricView {
                name: s.name@ + " status"@,
                value: MetricValueView::Text(status),
                unit: None,
                threshold: None,
            },
        ],
        None => Seq::empty(),
    }
}

/// The metric of a battery's charge level, with thresholds at 20 and 10 percent.
pub open spec fn charge_metrics(s: PowerSupply) -> Seq<MetricView> {
    match charge_of(s) {
        Some(pct) => seq![
            MetricView {
                name: s.name@ + " capacity"@,
                value: MetricValueView::Integer(pct),
                unit: Some("%"@),
                threshold: Some(
                    Threshold {
                        warning: crate::framework::float_bits::FloatBits { bits: BITS_20 },
                        critical: crate::framework::float_bits::FloatBits { bits: BITS_10 },
                    },
                ),
            },
        ],
        None => Seq::empty(),
    }
}

/// The metric of one of a battery's detailed readings.
pub open spec fn reading_metrics(
    s: PowerSupply,
    content: Option<String>,
    label: Seq<char>,
    unit: Seq<char>,
) -> Seq<MetricView> {
    match reading_of(content) {
        Some(u) => seq![
            MetricView {
                name: s.name@ + label,
                value: MetricValueView::Integer(as_signed(u)),
                unit: Some(unit),
                threshold: None,
            },
        ],
        None => Seq::empty(),
    }
}

/// The metrics of one battery: status, charge level and, where details are
/// asked for, energy and power.
pub open spec fn battery_metrics(s: PowerSupply, detailed: bool) -> Seq<MetricView> {
    status_metrics(s) + charge_metrics(s) + if detailed {
        reading_metrics(s, s.energy_now, " energy_now"@, "µWh"@) + reading_metrics(
            s,
            s.power_now,
            " power_now"@,
            "µW"@,
        )
    } else {
        Seq::empty()
    }
}

/// The warning of a battery whose charge level is below 10 percent.
pub open spec fn battery_findings(s: PowerSupply) -> Seq<FindingView> {
    match charge_of(s) {
        Some(pct) if pct < 10 => seq![
            FindingView {
                severity: Severity::Warning,
                category: "batt"@,
                message: "Battery at "@ + signed_text(pct as int) + "% – very low"@,
                details: Some("Plug in or suspend soon."@),
            },
        ],
        _ => Seq::empty(),
    }
}

/// The metrics of the batteries among the first `n` entries.
pub open spec fn metrics_upto(supplies: Seq<PowerSupply>, detailed: bool, n: int) -> Seq<
    MetricView,
>
    decreases n,
{
    if n <= 0 {
        Seq::empty()
    } else {
        metrics_upto(supplies, detailed, n - 1) + if is_battery(supplies[n - 1]) {
            battery_metrics(supplies[n - 1], detailed)
        } else {
            Seq::empty()
        }
    }
}

/// The findings of the batteries among the first `n` entries.
pub open spec fn findings_upto(supplies: Seq<PowerSupply>, n: int) -> Seq<FindingView>
    decreases n,
{
    if n <= 0 {
        Seq::empty()
    } else {
        findings_upto(supplies, n - 1) + if is_battery(supplies[n - 1]) {
            battery_findings(supplies[n - 1])
        } else {
            Seq::empty()
        }
    }
}

/// Whether one of the first `n` entries is a battery.
pub open spec fn battery_among(supplies: Seq<PowerSupply>, n: int) -> bool {
    exists|i: int| 0 <= i < n && i < supplies.len() && is_battery(supplies[i])
}

/// The finding that explains a host without a power-supply class.
pub open spec fn no_class_finding() -> FindingView {
    FindingView {
        severity: Severity::Info,
        category: "batt"@,
        message: "No power_supply class found (desktop or no battery)."@,
        details: None,
    }
}

/// The finding that explains a host without a battery.
pub open spec fn no_battery_finding() -> FindingView {
    FindingView {
        severity: Severity::Info,
        category: "batt"@,
        message: "No battery device found in /sys/class/power_supply."@,
        details: Some("This is normal on desktops or when battery is not exposed."@),
    }
}

/// The recommendation that every battery report ends with.
pub open spec fn power_tools_recommendation() -> RecommendationView {
    RecommendationView {
        priority: 3,
        action: "Use 'upower -i' or 'tlp-stat' for detailed power info."@,
        command: Some("upower -i /org/freedesktop/UPower/devices/battery_BAT0"@),
        explanation: "Upower provides charge cycles and time to empty."@,
    }
}

/// The findings of a battery report.
pub open spec fn report_findings(probe: BattProbe) -> Seq<FindingView> {
    if !probe.class_present {
        seq![no_class_finding()]
    } else if !battery_among(probe.supplies@, probe.supplies.len() as int) {
        findings_upto(probe.supplies@, probe.supplies.len() as int).push(no_battery_finding())
    } else {
        findings_upto(probe.supplies@, probe.supplies.len() as int)
    }
}

/// The battery report for what was read, generated at `at`.
pub open spec fn battery_report(probe: BattProbe, config: ModuleConfigView, at: Timestamp) -> ReportView {
    let findings = report_findings(probe);
    if !probe.class_present {
        assembled("batt"@, "Battery diagnostics"@, at, findings, Seq::empty(), Seq::empty())
    } else {
        assembled(
            "batt"@,
            if findings.len() == 0 {
                "Battery status OK."@
            } else {
                "Battery diagnostics"@
            },
            at,
            findings,
            metrics_upto(
                probe.supplies@,
                config.flag("detailed"@, false),
                probe.supplies.len() as int,
            ),
            seq![power_tools_recommendation()],
        )
    }
}

/// Entries that are no batteries yield no findings.
pub proof fn lemma_no_battery_no_findings(supplies: Seq<PowerSupply>, n: int)
    requires
        n <= supplies.len(),
        !battery_among(supplies, n),
    ensures
        findings_upto(supplies, n) == Seq::<FindingView>::empty(),
    decreases n,
{
    if n > 0 {
        assert(!is_battery(supplies[n - 1]));
        lemma_no_battery_no_findings(supplies, n - 1);
    }
}

/// On a host without a power-supply class or without a battery, the report
/// holds exactly one finding, of severity `Info`, and its overall severity is
/// `Info`.
pub proof fn lemma_absent_battery_is_reported(
    probe: BattProbe,
    config: ModuleConfigView,
    at: Timestamp,
)
    requires
        !probe.class_present || !battery_among(probe.supplies@, probe.supplies.len() as int),
    ensures
        battery_report(probe, config, at).findings.len() == 1,
        battery_report(probe, config, at).findings[0].severity == Severity::Info,
        battery_report(probe, config, at).overall_severity == Severity::Info,
{
    if probe.class_present {
        lemma_no_battery_no_findings(probe.supplies@, probe.supplies.len() as int);
    }
    let findings = report_findings(probe);
    assert(findings.len() == 1);
    let levels = severities(findings);
    assert(levels.drop_last() =~= Seq::<Severity>::empty());
    assert(worst_of(levels.drop_last()) == Severity::Okay);
    assert(levels.last() == Severity::Info);
}

/// Appends the metric of one detailed reading of a battery.
fn add_reading(
    report: &mut DiagnosticReport,
    s: &PowerSupply,
    content: &Option<String>,
    label: &str,
    unit: &str,
)
    ensures
        final(report)@ == (ReportView {
            metrics: old(report)@.metrics + reading_metrics(*s, *content, label@, unit@),
            ..old(report)@
        }),
{
    if let Some(line) = first_line(content) {
        if let Some(u) = parse_u64(line.as_str()) {
            report.add_metric(
                Metric::integer(cat2(s.name.as_str(), label), to_signed(u), Some(unit.to_owned())),
            );
            assert(report@.metrics =~= old(report)@.metrics + reading_metrics(
                *s,
                *content,
                label@,
                unit@,
            ));
            return ;
        }
    }
    assert(report@.metrics =~= old(report)@.metrics + reading_metrics(
        *s,
        *content,
        label@,
        unit@,
    ));
}

/// Appends the metrics and findings of one battery.
fn add_battery(report: &mut DiagnosticReport, s: &PowerSupply, detailed: bool)
    ensures
        final(report)@ == (ReportView {
            metrics: old(report)@.metrics + battery_metrics(*s, detailed),
            findings: old(report)@.findings + battery_findings(*s),
            overall_severity: final(report)@.overall_severity,
            ..old(report)@
        }),
        old(report)@.severity_current() ==> final(report)@.severity_current(),
{
    if let Some(status) = first_line(&s.status) {
        report.add_metric(Metric::text(cat2(s.name.as_str(), " status"), status));
    }
    assert(report@.metrics =~= old(report)@.metrics + status_metrics(*s));
    if let Some(cap) = first_line(&s.capacity) {
        if let Some(pct) = parse_i64(cap.as_str()) {
            report.add_metric(
                Metric::new(
                    cat2(s.name.as_str(), " capacity"),
                    MetricValue::Integer(pct),
                    Some("%".to_owned()),
                    Some(Threshold::of_bits(BITS_20, BITS_10)),
                ),
            );
            if pct < 10 {
                report.add_finding(
                    Finding::new(
                        Severity::Warning,
                        "batt",
                        cat3("Battery at ", i64_to_string(pct).as_str(), "% – very low"),
                        Some("Plug in or suspend soon.".to_owned()),
                    ),
                );
            }
        }
    }
    assert(report@.metrics =~= old(report)@.metrics + status_metrics(*s) + charge_metrics(*s));
    assert(report@.findings =~= old(report)@.findings + battery_findings(*s));
    if detailed {
        add_reading(report, s, &s.energy_now, " energy_now", "µWh");
        add_reading(report, s, &s.power_now, " power_now", "µW");
    }
    assert(report@.metrics =~= old(report)@.metrics + battery_metrics(*s, detailed));
}

/// Whether the entry's type names a battery.
pub fn names_battery(s: &PowerSupply) -> (r: bool)
    ensures
        r == is_battery(*s),
{
    let kind = match first_line(&s.kind) {
        Some(line) => line,
        None => String::new(),
    };
    let lower = to_lowercase(kind.as_str());
    str_contains(lower.as_str(), "battery")
}

/// The battery report for what was read: an `Info` finding where the host
/// has no power-supply class or no battery, else the batteries' metrics and a
/// warning for each battery below 10 percent.
pub fn report(probe: &BattProbe, config: &ModuleConfig) -> (r: DiagnosticReport)
    ensures
        r@ == battery_report(*probe, config@, r@.timestamp),
        r@.severity_current(),
{
    let mut report = DiagnosticReport::new("batt", "Battery diagnostics");
    if !probe.class_present {
        report.add_finding(
            Finding::new(
                Severity::Info,
                "batt",
                "No power_supply class found (desktop or no battery).".to_owned(),
                None,
            ),
        );
        assert(report@.findings =~= report_findings(*probe));
        return report;
    }
    let detailed = config.flag("detailed", false);
    let mut has_battery = false;
    let mut i: usize = 0;
    while i < probe.supplies.len()
        invariant
            i <= probe.supplies.len(),
            detailed == config@.flag("detailed"@, false),
            has_battery == battery_among(probe.supplies@, i as int),
            report@ == assembled(
                "batt"@,
                "Battery diagnostics"@,
                report@.timestamp,
                findings_upto(probe.supplies@, i as int),
                metrics_upto(probe.supplies@, detailed, i as int),
                Seq::empty(),
            ),
        decreases probe.supplies.len() - i,
    {
        if names_battery(&probe.supplies[i]) {
            has_battery = true;
            add_battery(&mut report, &probe.supplies[i], detailed);
        }
        proof {
            assert(report@.metrics =~= metrics_upto(probe.supplies@, detailed, i + 1));
            assert(report@.findings =~= findings_upto(probe.supplies@, i + 1));
            assert(report@.recommendations =~= Seq::<RecommendationView>::empty());
        }
        i += 1;
    }
    if !has_battery {
        report.add_finding(
            Finding::new(
                Severity::Info,
                "batt",
                "No battery device found in /sys/class/power_supply.".to_owned(),
                Some("This is normal on desktops or when battery is not exposed.".to_owned()),
            ),
        );
    } else if report.findings.len() == 0 {
        report.summary = "Battery status OK.".to_owned();
    }
    report.add_recommendation(
        Recommendation::new(
            3,
            "Use 'upower -i' or 'tlp-stat' for detailed power info.".to_owned(),
            Some("upower -i /org/freedesktop/UPower/devices/battery_BAT0".to_owned()),
            "Upower provides charge cycles and time to empty.",
        ),
    );
    report.compute_overall_severity();
    proof {
        assert(report@.findings =~= report_findings(*probe));
        assert(report@.recommendations =~= seq![power_tools_recommendation()]);
    }
    report
}

impl DiagnosticModule for BattModule {
    open spec fn name_text(&self) -> Seq<char> {
        "batt"@
    }

    open spec fn description_text(&self) -> Seq<char> {
        "Explain battery drain and power-hungry processes"@
    }

    open spec fn available(&self) -> bool {
        true
    }

    open spec fn run_allows(
        &self,
        config: ModuleConfigView,
        outcome: Result<ReportView, ExecutionErrorView>,
    ) -> bool {
        outcome matches Ok(r) && r == battery_report(self.probe, config, r.timestamp)
    }

    fn name(&self) -> (r: &'static str) {
        "batt"
    }

    fn description(&self) -> (r: &'static str) {
        "Explain battery drain and power-hungry processes"
    }

    fn is_available(&self) -> (b: bool) {
        true
    }

    fn run(&self, config: &ModuleConfig) -> (r: Result<DiagnosticReport, ExecutionError>) {
        Ok(report(&self.probe, config))
    }
}

/// The battery module on what was read from the host.
pub fn module(probe: BattProbe) -> (m: BattModule)
    ensures
        m.probe == probe,
{
    BattModule { probe }
}

} // verus!
