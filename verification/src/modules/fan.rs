//! Fan activity explanation: fan speeds from hwmon.

use crate::framework::report::{
    assembled, DiagnosticReport, Finding, FindingView, Metric, MetricValueView, MetricView,
    RecommendationView, ReportView, Timestamp,
};
use crate::framework::severity::Severity;
use crate::framework::traits::{
    DiagnosticModule, ExecutionError, ExecutionErrorView, ModuleConfig, ModuleConfigView,
};
use crate::modules::hwmon::{inputs_upto, read_inputs, sensor_lines, SensorChip, SensorLine};
use crate::utils::format::{decimal_text, u64_to_string};
use crate::utils::math::{as_signed, to_signed};
use crate::utils::parse::{parse_u64, u64_of};
use crate::utils::text::{cat2, cat3, cat4, trimmed};
use vstd::prelude::*;

verus! {

/// The speed above which a fan is reported.
#[derive(Debug, Clone)]
pub struct FanLimit {
    /// The limit in revolutions per minute: a hundred times the whole part
    /// of the threshold that the option `threshold` states.
    pub rpm: u64,
    /// That threshold as text.
    pub text: String,
}

/// What the fan module reads from the host.
#[derive(Debug, Clone)]
pub struct FanProbe {
    /// The entries of `/sys/class/hwmon`, none where it does not exist.
    pub chips: Vec<SensorChip>,
    /// The limit, where the option `threshold` states a number.
    pub limit: Option<FanLimit>,
}

/// The fan module, on what it read.
#[derive(Debug, Clone)]
pub struct FanModule {
    pub probe: FanProbe,
}

/// A fan with its speed in revolutions per minute.
pub ghost struct FanSpeed {
    pub label: Seq<char>,
    pub rpm: u64,
}

/// The fans among the first `n` sensor inputs that state a speed.
pub open spec fn fans_upto(inputs: Seq<SensorLine>, n: int) -> Seq<FanSpeed>
    decreases n,
{
    if n <= 0 {
        Seq::empty()
    } else {
        match u64_of(trimmed(inputs[n - 1].line)) {
            Some(rpm) => fans_upto(inputs, n - 1).push(
                FanSpeed { label: inputs[n - 1].label, rpm },
            ),
            None => fans_upto(inputs, n - 1),
        }
    }
}

/// The fans of a probe.
pub open spec fn fans_of(probe: FanProbe) -> Seq<FanSpeed> {
    let inputs = inputs_upto(probe.chips@, "fan"@, probe.chips.len() as int);
    fans_upto(inputs, inputs.len() as int)
}

/// The metrics of the first `n` fans.
pub open spec fn metrics_upto(fans: Seq<FanSpeed>, n: int) -> Seq<MetricView>
    decreases n,
{
    if n <= 0 {
        Seq::empty()
    } else {
        metrics_upto(fans, n - 1).push(
            MetricView {
                name: fans[n - 1].label,
                value: MetricValueView::Integer(as_signed(fans[n - 1].rpm)),
                unit: Some("RPM"@),
                threshold: None,
            },
        )
    }
}

/// The finding on a fan that runs above the limit.
pub open spec fn fast_finding(fan: FanSpeed, limit: FanLimit) -> FindingView {
    FindingView {
        severity: Severity::Info,
        category: "fan"@,
        message: fan.label + " running at "@ + decimal_text(fan.rpm as nat) + " RPM (above "@
            + limit.text@ + "Â°C threshold)"@,
        details: Some("High fan speed usually indicates thermal load."@),
    }
}

/// The findings on those of the first `n` fans that run above the limit.
pub open spec fn findings_upto(fans: Seq<FanSpeed>, limit: Option<FanLimit>, n: int) -> Seq<
    FindingView,
>
    decreases n,
{
    if n <= 0 {
        Seq::empty()
    } else if limit is Some && fans[n - 1].rpm > limit->0.rpm {
        findings_upto(fans, limit, n - 1).push(fast_finding(fans[n - 1], limit->0))
    } else {
        findings_upto(fans, limit, n - 1)
    }
}

/// The fan report for what was read, generated at `at`.
pub open spec fn fan_report(probe: FanProbe, config: ModuleConfigView, at: Timestamp) -> ReportView {
    let fans = fans_of(probe);
    if fans.len() == 0 {
        assembled(
            "fan"@,
            "Fan diagnostics"@,
            at,
            seq![
                FindingView {
                    severity: Severity::Info,
                    category: "fan"@,
                    message: "No fan sensors found under /sys/class/hwmon."@,
                    details: Some("Some laptops expose fans via ACPI or other interfaces."@),
                },
            ],
            Seq::empty(),
            Seq::empty(),
        )
    } else {
        let findings = findings_upto(fans, probe.limit, fans.len() as int);
        assembled(
            "fan"@,
            if findings.len() == 0 {
                "Fan speeds within normal range."@
            } else {
                "Fan diagnostics"@
            },
            at,
            findings,
            metrics_upto(fans, fans.len() as int),
            Seq::empty(),
        )
    }
}

/// The content of a list of labelled speeds.
pub open spec fn speeds(v: Seq<(String, u64)>) -> Seq<FanSpeed> {
    v.map_values(|e: (String, u64)| FanSpeed { label: e.0@, rpm: e.1 })
}

/// The text of the option `threshold`, where it is set.
pub fn threshold_text(config: &ModuleConfig) -> (r: Option<String>)
    ensures
        crate::framework::report::opt_text(r) == config@.extra("threshold"@),
{
    config.extra("threshold")
}

/// The fans that the sensor chips expose, each with its speed.
pub fn read_hwmon_fans(chips: &Vec<SensorChip>) -> (r: Vec<(String, u64)>)
    ensures
        speeds(r@) == ({
            let inputs = inputs_upto(chips@, "fan"@, chips.len() as int);
            fans_upto(inputs, inputs.len() as int)
        }),
{
    let inputs = read_inputs(chips, "fan");
    let mut out: Vec<(String, u64)> = Vec::new();
    let mut i: usize = 0;
    assert(speeds(out@) =~= fans_upto(sensor_lines(inputs@), 0));
    while i < inputs.len()
        invariant
            i <= inputs.len(),
            speeds(out@) == fans_upto(sensor_lines(inputs@), i as int),
        decreases inputs.len() - i,
    {
        let ghost before = speeds(out@);
        assert(sensor_lines(inputs@)[i as int].line == inputs[i as int].1@);
        assert(sensor_lines(inputs@)[i as int].label == inputs[i as int].0@);
        if let Some(rpm) = parse_u64(inputs[i].1.as_str()) {
            let label = inputs[i].0.clone();
            out.push((label, rpm));
            assert(speeds(out@) =~= before.push(FanSpeed { label: label@, rpm }));
        }
        i += 1;
    }
    out
}

/// The fan report for what was read: an `Info` finding where no fan sensor
/// states a speed, else a metric for each fan and a note for each fan above
/// the limit.
pub fn report(probe: &FanProbe, config: &ModuleConfig) -> (r: DiagnosticReport)
    ensures
        r@ == fan_report(*probe, config@, r@.timestamp),
        r@.severity_current(),
{
    let mut report = DiagnosticReport::new("fan", "Fan diagnostics");
    let fans = read_hwmon_fans(&probe.chips);
    let ghost all = speeds(fans@);
    if fans.len() == 0 {
        report.add_finding(
            Finding::new(
                Severity::Info,
                "fan",
                "No fan sensors found under /sys/class/hwmon.".to_owned(),
                Some("Some laptops expose fans via ACPI or other interfaces.".to_owned()),
            ),
        );
        assert(report@.findings =~= fan_report(*probe, config@, report@.timestamp).findings);
        return report;
    }
    let mut i: usize = 0;
    assert(report@.metrics =~= metrics_upto(all, 0));
    while i < fans.len()
        invariant
            i <= fans.len(),
            all == speeds(fans@),
            report@ == assembled(
                "fan"@,
                "Fan diagnostics"@,
                report@.timestamp,
                Seq::empty(),
                metrics_upto(all, i as int),
                Seq::empty(),
            ),
        decreases fans.len() - i,
    {
        assert(all[i as int] == FanSpeed { label: fans[i as int].0@, rpm: fans[i as int].1 });
        report.add_metric(
            Metric::integer(fans[i].0.clone(), to_signed(fans[i].1), Some("RPM".to_owned())),
        );
        assert(report@.metrics =~= metrics_upto(all, i + 1));
        i += 1;
    }
    if let Some(limit) = &probe.limit {
        let mut k: usize = 0;
        assert(report@.findings =~= findings_upto(all, probe.limit, 0));
        while k < fans.len()
            invariant
                k <= fans.len(),
                all == speeds(fans@),
                probe.limit == Some(*limit),
                report@ == assembled(
                    "fan"@,
                    "Fan diagnostics"@,
                    report@.timestamp,
                    findings_upto(all, probe.limit, k as int),
                    metrics_upto(all, fans.len() as int),
                    Seq::empty(),
                ),
            decreases fans.len() - k,
        {
            assert(all[k as int] == FanSpeed { label: fans[k as int].0@, rpm: fans[k as int].1 });
            if fans[k].1 > limit.rpm {
                report.add_finding(
                    Finding::new(
                        Severity::Info,
                        "fan",
                        cat3(
                            cat4(
                                fans[k].0.as_str(),
                                " running at ",
                                u64_to_string(fans[k].1).as_str(),
                                " RPM (above ",
                            ).as_str(),
                            limit.text.as_str(),
                            "Â°C threshold)",
                        ),
                        Some("High fan speed usually indicates thermal load.".to_owned()),
                    ),
                );
            }
            assert(report@.findings =~= findings_upto(all, probe.limit, k + 1));
            k += 1;
        }
    } else {
        proof {
            lemma_no_limit(all, fans.len() as int);
        }
    }
    if report.findings.len() == 0 {
        report.summary = "Fan speeds within normal range.".to_owned();
    }
    report.compute_overall_severity();
    report
}

/// Without a limit no fan is reported.
pub proof fn lemma_no_limit(fans: Seq<FanSpeed>, n: int)
    ensures
        findings_upto(fans, None, n) == Seq::<FindingView>::empty(),
    decreases n,
{
    if n > 0 {
        lemma_no_limit(fans, n - 1);
    }
}

impl DiagnosticModule for FanModule {
    open spec fn name_text(&self) -> Seq<char> {
        "fan"@
    }

    open spec fn description_text(&self) -> Seq<char> {
        "Explain fan activity and correlate with temperature/load"@
    }

    open spec fn available(&self) -> bool {
        true
    }

    open spec fn run_allows(
        &self,
        config: ModuleConfigView,
        outcome: Result<ReportView, ExecutionErrorView>,
    ) -> bool {
        outcome matches Ok(r) && r == fan_report(self.probe, config, r.timestamp)
    }

    fn name(&self) -> (r: &'static str) {
        "fan"
    }

    fn description(&self) -> (r: &'static str) {
        "Explain fan activity and correlate with temperature/load"
    }

    fn is_available(&self) -> (b: bool) {
        true
    }

    fn run(&self, config: &ModuleConfig) -> (r: Result<DiagnosticReport, ExecutionError>) {
        Ok(report(&self.probe, config))
    }
}

/// The fan module on what was read from the host.
pub fn module(probe: FanProbe) -> (m: FanModule)
    ensures
        m.probe == probe,
{
    FanModule { probe }
}

/// On a host where no sensor states a fan speed, the report holds exactly
/// one finding, of severity `Info`, and its overall severity is `Info`.
pub proof fn lemma_absent_fans_are_reported(probe: FanProbe, config: ModuleConfigView, at: Timestamp)
    requires
        fans_of(probe).len() == 0,
    ensures
        fan_report(probe, config, at).findings.len() == 1,
        fan_report(probe, config, at).findings[0].severity == Severity::Info,
        fan_report(probe, config, at).overall_severity == Severity::Info,
{
    crate::framework::report::lemma_single_finding(fan_report(probe, config, at).findings[0]);
    assert(fan_report(probe, config, at).findings =~= seq![
        fan_report(probe, config, at).findings[0],
    ]);
}

} // verus!
