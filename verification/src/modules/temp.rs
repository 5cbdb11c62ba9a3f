//! Temperature analysis: thermal zones and hwmon sensors.

use crate::framework::float_bits::{BITS_80, BITS_90};
use crate::framework::report::{
    assembled, extends, lemma_extends_none, lemma_extends_twice, severities, worst_of,
    DiagnosticReport, Finding, FindingView, Metric, MetricValue, MetricValueView, MetricView,
    Recommendation, RecommendationView, ReportView, Threshold, Timestamp,
};
use crate::framework::severity::Severity;
use crate::framework::traits::{
    DiagnosticModule, ExecutionError, ExecutionErrorView, ModuleConfig, ModuleConfigView,
};
use crate::modules::hwmon::{inputs_upto, read_inputs, sensor_lines, SensorChip, SensorLine};
use crate::utils::files::{first_line, first_line_text};
use crate::utils::format::{i64_to_string, signed_text};
use crate::utils::math::{div_toward_zero, quotient_toward_zero};
use crate::utils::parse::{parse_i64, signed_of};
use crate::utils::text::{cat4, trimmed};
use vstd::prelude::*;

verus! {

/// One entry of `/sys/class/thermal` as it was read.
#[derive(Debug, Clone)]
pub struct ThermalZone {
    /// The entry's file name.
    pub dir_name: String,
    /// Content of its `type` file, `None` where it is missing or unreadable.
    pub kind: Option<String>,
    /// Content of its `temp` file, `None` where it is missing or unreadable.
    pub temp: Option<String>,
}

/// What the temperature module reads from the host.
#[derive(Debug, Clone)]
pub struct TempProbe {
    /// The entries of `/sys/class/thermal`, none where it does not exist.
    pub zones: Vec<ThermalZone>,
    /// The entries of `/sys/class/hwmon`, none where it does not exist.
    pub chips: Vec<SensorChip>,
}

/// The temperature module, on what it read.
#[derive(Debug, Clone)]
pub struct TempModule {
    pub probe: TempProbe,
}

/// A sensor with its temperature in degrees Celsius.
pub ghost struct Temperature {
    pub name: Seq<char>,
    pub degrees: i64,
}

/// The degrees that a line states in millidegrees, rounded toward zero,
/// where it holds a number that fits in 32 bits.
pub open spec fn degrees_of(line: Seq<char>) -> Option<i64> {
    match signed_of(trimmed(line)) {
        Some(m) => if i32::MIN <= m <= i32::MAX {
            Some(quotient_toward_zero(m, 1000) as i64)
        } else {
            None
        },
        None => None,
    }
}

/// The temperatures of the first `n` thermal zones that state one, each
/// named by the zone's type or its directory.
pub open spec fn zone_temps_upto(zones: Seq<ThermalZone>, n: int) -> Seq<Temperature>
    decreases n,
{
    if n <= 0 {
        Seq::empty()
    } else {
        let zone = zones[n - 1];
        let stated = match first_line_text(zone.temp) {
            Some(line) => degrees_of(line),
            None => None,
        };
        match stated {
            Some(degrees) => zone_temps_upto(zones, n - 1).push(
                Temperature {
                    name: match first_line_text(zone.kind) {
                        Some(kind) => kind,
                        None => zone.dir_name@,
                    },
                    degrees,
                },
            ),
            None => zone_temps_upto(zones, n - 1),
        }
    }
}

/// The temperatures of the first `n` sensor inputs that state one.
pub open spec fn input_temps_upto(inputs: Seq<SensorLine>, n: int) -> Seq<Temperature>
    decreases n,
{
    if n <= 0 {
        Seq::empty()
    } else {
        match degrees_of(inputs[n - 1].line) {
            Some(degrees) => input_temps_upto(inputs, n - 1).push(
                Temperature { name: inputs[n - 1].label, degrees },
            ),
            None => input_temps_upto(inputs, n - 1),
        }
    }
}

/// All temperatures of a probe: thermal zones first, then hwmon sensors.
pub open spec fn temperatures_of(probe: TempProbe) -> Seq<Temperature> {
    let inputs = inputs_upto(probe.chips@, "temp"@, probe.chips.len() as int);
    zone_temps_upto(probe.zones@, probe.zones.len() as int) + input_temps_upto(
        inputs,
        inputs.len() as int,
    )
}

/// Whether a temperature is reported: always, or from 90 degrees where only
/// critical ones are asked for.
pub open spec fn is_reported(t: Temperature, only_critical: bool) -> bool {
    !only_critical || t.degrees >= 90
}

/// The metric of a temperature, with thresholds at 80 and 90 degrees.
pub open spec fn temperature_metrics(t: Temperature, only_critical: bool) -> Seq<MetricView> {
    if is_reported(t, only_critical) {
        seq![
            MetricView {
                name: t.name,
                value: MetricValueView::Integer(t.degrees),
                unit: Some("°C"@),
                threshold: Some(
                    Threshold {
                        warning: crate::framework::float_bits::FloatBits { bits: BITS_80 },
                        critical: crate::framework::float_bits::FloatBits { bits: BITS_90 },
                    },
                ),
            },
        ]
    } else {
        Seq::empty()
    }
}

/// The finding on a temperature: critical from 90 degrees, a warning from 80.
pub open spec fn temperature_findings(t: Temperature, only_critical: bool) -> Seq<FindingView> {
    if !is_reported(t, only_critical) {
        Seq::empty()
    } else if t.degrees >= 90 {
        seq![
            FindingView {
                severity: Severity::Critical,
                category: "temp"@,
                message: t.name + " at "@ + signed_text(t.degrees as int)
                    + "°C – thermal throttling risk"@,
                details: Some("Improve cooling or reduce load."@),
            },
        ]
    } else if t.degrees >= 80 {
        seq![
            FindingView {
                severity: Severity::Warning,
                category: "temp"@,
                message: t.name + " at "@ + signed_text(t.degrees as int)
                    + "°C – high temperature"@,
                details: None,
            },
        ]
    } else {
        Seq::empty()
    }
}

/// The metrics of the first `n` temperatures.
pub open spec fn metrics_upto(temps: Seq<Temperature>, only_critical: bool, n: int) -> Seq<
    MetricView,
>
    decreases n,
{
    if n <= 0 {
        Seq::empty()
    } else {
        metrics_upto(temps, only_critical, n - 1) + temperature_metrics(
            temps[n - 1],
            only_critical,
        )
    }
}

/// The findings on the first `n` temperatures.
pub open spec fn findings_upto(temps: Seq<Temperature>, only_critical: bool, n: int) -> Seq<
    FindingView,
>
    decreases n,
{
    if n <= 0 {
        Seq::empty()
    } else {
        findings_upto(temps, only_critical, n - 1) + temperature_findings(
            temps[n - 1],
            only_critical,
        )
    }
}

/// The temperature report for what was read, generated at `at`.
pub open spec fn temp_report(probe: TempProbe, config: ModuleConfigView, at: Timestamp) -> ReportView {
    let temps = temperatures_of(probe);
    if temps.len() == 0 {
        assembled(
            "temp"@,
            "Temperature analysis"@,
            at,
            seq![
                FindingView {
                    severity: Severity::Info,
                    category: "temp"@,
                    message: "No temperature sensors found (/sys/class/thermal, /sys/class/hwmon)."@,
                    details: None,
                },
            ],
            Seq::empty(),
            Seq::empty(),
        )
    } else {
        let only_critical = config.flag("critical"@, false);
        let findings = findings_upto(temps, only_critical, temps.len() as int);
        assembled(
            "temp"@,
            if findings.len() == 0 {
                "Temperatures within normal range."@
            } else {
                "Temperature analysis"@
            },
            at,
            findings,
            metrics_upto(temps, only_critical, temps.len() as int),
            if worst_of(severities(findings)).rank() >= Severity::Warning.rank() {
                seq![
                    RecommendationView {
                        priority: 1,
                        action: "Improve cooling: clean fans, check thermal paste, reduce load."@,
                        command: Some("sensors"@),
                        explanation: "Use 'sensors' (lm-sensors) for more detailed readings."@,
                    },
                ]
            } else {
                Seq::empty()
            },
        )
    }
}

/// The content of a list of named temperatures.
pub open spec fn temperatures(v: Seq<(String, i64)>) -> Seq<Temperature> {
    v.map_values(|e: (String, i64)| Temperature { name: e.0@, degrees: e.1 })
}

/// The degrees that a line states in millidegrees.
pub fn degrees(line: &str) -> (r: Option<i64>)
    ensures
        r == degrees_of(line@),
{
    match parse_i64(line) {
        Some(m) => {
            if -0x8000_0000 <= m && m <= 0x7fff_ffff {
                Some(div_toward_zero(m, 1000))
            } else {
                None
            }
        },
        None => None,
    }
}

/// Appends the temperatures of the thermal zones.
fn read_thermal_zones(zones: &Vec<ThermalZone>, out: &mut Vec<(String, i64)>)
    ensures
        temperatures(final(out)@) == temperatures(old(out)@) + zone_temps_upto(
            zones@,
            zones.len() as int,
        ),
{
    let ghost start = temperatures(out@);
    let mut i: usize = 0;
    assert(temperatures(out@) =~= start + zone_temps_upto(zones@, 0));
    while i < zones.len()
        invariant
            i <= zones.len(),
            temperatures(out@) == start + zone_temps_upto(zones@, i as int),
        decreases zones.len() - i,
    {
        let zone = &zones[i];
        let ghost before = temperatures(out@);
        if let Some(line) = first_line(&zone.temp) {
            if let Some(value) = degrees(line.as_str()) {
                let name = match first_line(&zone.kind) {
                    Some(kind) => kind,
                    None => zone.dir_name.clone(),
                };
                out.push((name, value));
                assert(temperatures(out@) =~= before.push(
                    Temperature { name: name@, degrees: value },
                ));
            }
        }
        assert(temperatures(out@) =~= start + zone_temps_upto(zones@, i + 1));
        i += 1;
    }
}

/// Appends the temperatures of the hwmon sensors.
fn read_hwmon_temps(chips: &Vec<SensorChip>, out: &mut Vec<(String, i64)>)
    ensures
        temperatures(final(out)@) == temperatures(old(out)@) + ({
            let inputs = inputs_upto(chips@, "temp"@, chips.len() as int);
            input_temps_upto(inputs, inputs.len() as int)
        }),
{
    let ghost start = temperatures(out@);
    let inputs = read_inputs(chips, "temp");
    let mut i: usize = 0;
    assert(temperatures(out@) =~= start + input_temps_upto(sensor_lines(inputs@), 0));
    while i < inputs.len()
        invariant
            i <= inputs.len(),
            temperatures(out@) == start + input_temps_upto(sensor_lines(inputs@), i as int),
        decreases inputs.len() - i,
    {
        let ghost before = temperatures(out@);
        assert(sensor_lines(inputs@)[i as int].line == inputs[i as int].1@);
        assert(sensor_lines(inputs@)[i as int].label == inputs[i as int].0@);
        if let Some(value) = degrees(inputs[i].1.as_str()) {
            let name = inputs[i].0.clone();
            out.push((name, value));
            assert(temperatures(out@) =~= before.push(
                Temperature { name: name@, degrees: value },
            ));
        }
        assert(temperatures(out@) =~= start + input_temps_upto(sensor_lines(inputs@), i + 1));
        i += 1;
    }
}

/// Appends the metric and the finding of one temperature.
fn add_temperature(report: &mut DiagnosticReport, name: &str, value: i64, only_critical: bool)
    ensures
        extends(
            old(report)@,
            final(report)@,
            temperature_findings(Temperature { name: name@, degrees: value }, only_critical),
            temperature_metrics(Temperature { name: name@, degrees: value }, only_critical),
        ),
{
    proof {
        lemma_extends_none(report@);
    }
    if only_critical && value < 90 {
        return ;
    }
    let ghost start = report@;
    let ghost t = Temperature { name: name@, degrees: value };
    report.push_metric(
        Metric::new(
            name.to_owned(),
            MetricValue::Integer(value),
            Some("°C".to_owned()),
            Some(Threshold::of_bits(BITS_80, BITS_90)),
        ),
    );
    let ghost measured = report@;
    proof {
        lemma_extends_none(measured);
    }
    if value >= 90 {
        report.push_finding(
            Finding::new(
                Severity::Critical,
                "temp",
                cat4(
                    name,
                    " at ",
                    i64_to_string(value).as_str(),
                    "°C – thermal throttling risk",
                ),
                Some("Improve cooling or reduce load.".to_owned()),
            ),
        );
    } else if value >= 80 {
        report.push_finding(
            Finding::new(
                Severity::Warning,
                "temp",
                cat4(name, " at ", i64_to_string(value).as_str(), "°C – high temperature"),
                None,
            ),
        );
    }
    proof {
        assert(extends(measured, report@, temperature_findings(t, only_critical), Seq::empty()));
        lemma_extends_twice(
            start,
            measured,
            report@,
            Seq::empty(),
            temperature_metrics(t, only_critical),
            temperature_findings(t, only_critical),
            Seq::empty(),
        );
        assert(Seq::<FindingView>::empty() + temperature_findings(t, only_critical)
            =~= temperature_findings(t, only_critical));
        assert(temperature_metrics(t, only_critical) + Seq::<MetricView>::empty()
            =~= temperature_metrics(t, only_critical));
    }
}

/// The temperature report for what was read: an `Info` finding where no
/// sensor states a temperature, else a metric for each temperature, a
/// warning from 80 degrees and a critical finding from 90 degrees.
pub fn report(probe: &TempProbe, config: &ModuleConfig) -> (r: DiagnosticReport)
    ensures
        r@ == temp_report(*probe, config@, r@.timestamp),
        r@.severity_current(),
{
    let mut report = DiagnosticReport::new("temp", "Temperature analysis");
    let only_critical = config.flag("critical", false);
    let mut temps: Vec<(String, i64)> = Vec::new();
    assert(temperatures(temps@) =~= Seq::<Temperature>::empty());
    read_thermal_zones(&probe.zones, &mut temps);
    read_hwmon_temps(&probe.chips, &mut temps);
    assert(temperatures(temps@) =~= temperatures_of(*probe));
    if temps.len() == 0 {
        report.add_finding(
            Finding::new(
                Severity::Info,
                "temp",
                "No temperature sensors found (/sys/class/thermal, /sys/class/hwmon).".to_owned(),
                None,
            ),
        );
        assert(report@.findings =~= temp_report(*probe, config@, report@.timestamp).findings);
        return report;
    }
    let ghost all = temperatures(temps@);
    let mut i: usize = 0;
    while i < temps.len()
        invariant
            i <= temps.len(),
            all == temperatures(temps@),
            report@ == assembled(
                "temp"@,
                "Temperature analysis"@,
                report@.timestamp,
                findings_upto(all, only_critical, i as int),
                metrics_upto(all, only_critical, i as int),
                Seq::empty(),
            ),
        decreases temps.len() - i,
    {
        assert(all[i as int] == Temperature { name: temps[i as int].0@, degrees: temps[i as int].1 });
        add_temperature(&mut report, temps[i].0.as_str(), temps[i].1, only_critical);
        proof {
            assert(report@.findings =~= findings_upto(all, only_critical, i + 1));
            assert(report@.metrics =~= metrics_upto(all, only_critical, i + 1));
        }
        i += 1;
    }
    if report.overall_severity.at_least(Severity::Warning) {
        report.add_recommendation(
            Recommendation::new(
                1,
                "Improve cooling: clean fans, check thermal paste, reduce load.".to_owned(),
                Some("sensors".to_owned()),
                "Use 'sensors' (lm-sensors) for more detailed readings.",
            ),
        );
    }
    if report.findings.len() == 0 {
        report.summary = "Temperatures within normal range.".to_owned();
    }
    report.compute_overall_severity();
    proof {
        let want = temp_report(*probe, config@, report@.timestamp);
        assert(report@.recommendations =~= want.recommendations);
    }
    report
}

impl DiagnosticModule for TempModule {
    open spec fn name_text(&self) -> Seq<char> {
        "temp"@
    }

    open spec fn description_text(&self) -> Seq<char> {
        "Analyze temperatures and thermal throttling"@
    }

    open spec fn available(&self) -> bool {
        true
    }

    open spec fn run_allows(
        &self,
        config: ModuleConfigView,
        outcome: Result<ReportView, ExecutionErrorView>,
    ) -> bool {
        outcome matches Ok(r) && r == temp_report(self.probe, config, r.timestamp)
    }

    fn name(&self) -> (r: &'static str) {
        "temp"
    }

    fn description(&self) -> (r: &'static str) {
        "Analyze temperatures and thermal throttling"
    }

    fn is_available(&self) -> (b: bool) {
        true
    }

    fn run(&self, config: &ModuleConfig) -> (r: Result<DiagnosticReport, ExecutionError>) {
        Ok(report(&self.probe, config))
    }
}

/// The temperature module on what was read from the host.
pub fn module(probe: TempProbe) -> (m: TempModule)
    ensures
        m.probe == probe,
{
    TempModule { probe }
}

/// On a host where no sensor states a temperature, the report holds
/// exactly one finding, of severity `Info`, and its overall severity is `Info`.
pub proof fn lemma_absent_sensors_are_reported(
    probe: TempProbe,
    config: ModuleConfigView,
    at: Timestamp,
)
    requires
        temperatures_of(probe).len() == 0,
    ensures
        temp_report(probe, config, at).findings.len() == 1,
        temp_report(probe, config, at).findings[0].severity == Severity::Info,
        temp_report(probe, config, at).overall_severity == Severity::Info,
{
    crate::framework::report::lemma_single_finding(temp_report(probe, config, at).findings[0]);
    assert(temp_report(probe, config, at).findings =~= seq![
        temp_report(probe, config, at).findings[0],
    ]);
}

} // verus!
