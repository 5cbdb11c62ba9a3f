//! CPU usage explanation: utilization, load, top consumers.

use crate::framework::float_bits::{
    FloatBits, Reading, BITS_50, BITS_70, BITS_80, BITS_90, BITS_HALF,
};
use crate::framework::report::{
    assembled, DiagnosticReport, Finding, FindingView, Metric, MetricValue, MetricValueView,
    MetricView, Recommendation, RecommendationView, ReportView, Threshold, Timestamp,
};
use crate::framework::severity::Severity;
use crate::framework::traits::{
    DiagnosticModule, ExecutionError, ExecutionErrorView, ModuleConfig, ModuleConfigView,
};
use crate::utils::format::{decimal_text, u64_to_string};
use crate::utils::math::{as_signed, at_most, to_signed};
use crate::utils::ranking::{rank_descending, ranking};
use crate::utils::text::{cat2, cat4, cat5};
use vstd::prelude::*;

verus! {

/// How much CPU time a process takes.
#[derive(Debug, Clone)]
pub struct ProcessLoad {
    pub pid: u32,
    pub name: String,
    /// CPU usage in percent, rendered with one decimal.
    pub usage: Reading,
    /// Memory in bytes.
    pub memory: u64,
    /// The id of the user that runs the process, where it is known.
    pub user: Option<String>,
}

/// What the CPU module reads from the host.
#[derive(Debug, Clone)]
pub struct CpuProbe {
    /// Mean usage of all cores in percent.
    pub usage: Reading,
    /// Load averages over one, five and fifteen minutes, each rendered with
    /// two decimals.
    pub load_one: String,
    pub load_five: String,
    pub load_fifteen: String,
    /// Number of cores.
    pub cores: u64,
    /// The processes, in the order in which the host lists them.
    pub processes: Vec<ProcessLoad>,
}

/// The CPU module, on what it read.
#[derive(Debug, Clone)]
pub struct CpuModule {
    pub probe: CpuProbe,
}

/// The summary of a usage: high above 80 percent, moderate above 50.
pub open spec fn summary_of(usage: FloatBits) -> Seq<char> {
    if usage.spec_gt(FloatBits { bits: BITS_80 }) {
        "High CPU utilization detected"@
    } else if usage.spec_gt(FloatBits { bits: BITS_50 }) {
        "Moderate CPU usage"@
    } else {
        "CPU usage within normal range"@
    }
}

/// The metrics of a CPU report: load averages, usage with thresholds at 70
/// and 90 percent, and the number of cores.
pub open spec fn cpu_metrics(probe: CpuProbe) -> Seq<MetricView> {
    seq![
        MetricView {
            name: "Load Average"@,
            value: MetricValueView::Text(
                probe.load_one@ + " / "@ + probe.load_five@ + " / "@ + probe.load_fifteen@
                    + " (1m / 5m / 15m)"@,
            ),
            unit: None,
            threshold: None,
        },
        MetricView {
            name: "CPU Usage"@,
            value: MetricValueView::Float(probe.usage.value),
            unit: Some("%"@),
            threshold: Some(
                Threshold {
                    warning: FloatBits { bits: BITS_70 },
                    critical: FloatBits { bits: BITS_90 },
                },
            ),
        },
        MetricView {
            name: "CPU Cores"@,
            value: MetricValueView::Integer(as_signed(probe.cores)),
            unit: None,
            threshold: None,
        },
    ]
}

/// How the user of a process is shown: its id, or `?`.
pub open spec fn user_text(p: ProcessLoad) -> Seq<char> {
    match p.user {
        Some(id) => id@,
        None => "?"@,
    }
}

/// The finding on a process: a warning above 50 percent, else a note.
pub open spec fn process_finding(p: ProcessLoad) -> FindingView {
    FindingView {
        severity: if p.usage.value.spec_gt(FloatBits { bits: BITS_50 }) {
            Severity::Warning
        } else {
            Severity::Info
        },
        category: "process"@,
        message: p.name@ + " (PID "@ + decimal_text(p.pid as nat) + ") consuming "@
            + p.usage.text@ + "% CPU"@,
        details: Some(
            "Memory: "@ + decimal_text((p.memory / 1024) as nat) + " KB, User: "@ + user_text(p),
        ),
    }
}

/// The findings on those of the first `n` processes of a ranking that take
/// at least half a percent.
pub open spec fn process_findings_upto(procs: Seq<ProcessLoad>, order: Seq<int>, n: int) -> Seq<
    FindingView,
>
    decreases n,
{
    if n <= 0 {
        Seq::empty()
    } else if procs[order[n - 1]].usage.value.spec_lt(FloatBits { bits: BITS_HALF }) {
        process_findings_upto(procs, order, n - 1)
    } else {
        process_findings_upto(procs, order, n - 1).push(process_finding(procs[order[n - 1]]))
    }
}

/// The keys by which processes are ranked.
pub open spec fn keys_of(procs: Seq<ProcessLoad>) -> Seq<u64> {
    procs.map_values(|p: ProcessLoad| p.usage.value.spec_order_key())
}

/// The findings on the `top_n` processes that take most CPU time.
pub open spec fn top_findings(procs: Seq<ProcessLoad>, top_n: usize) -> Seq<FindingView> {
    process_findings_upto(
        procs,
        ranking(keys_of(procs), procs.len() as int),
        at_most(top_n as int, procs.len() as int),
    )
}

/// The CPU report for what was read, generated at `at`.
pub open spec fn cpu_report(probe: CpuProbe, config: ModuleConfigView, at: Timestamp) -> ReportView {
    assembled(
        "cpu"@,
        summary_of(probe.usage.value),
        at,
        top_findings(probe.processes@, config.top_n),
        cpu_metrics(probe),
        if probe.usage.value.spec_gt(FloatBits { bits: BITS_80 }) {
            seq![
                RecommendationView {
                    priority: 1,
                    action: "Identify and reduce load from top processes (close tabs, stop heavy tasks)."@,
                    command: Some("ps aux --sort=-%cpu | head -n 15"@),
                    explanation: "High CPU often comes from browsers, IDEs, or background indexing."@,
                },
            ]
        } else {
            Seq::empty()
        },
    )
}

/// Appends the findings on the `top_n` processes that take most CPU time.
fn add_top_processes(report: &mut DiagnosticReport, procs: &Vec<ProcessLoad>, top_n: usize)
    ensures
        final(report)@ == (ReportView {
            findings: old(report)@.findings + top_findings(procs@, top_n),
            overall_severity: final(report)@.overall_severity,
            ..old(report)@
        }),
        old(report)@.severity_current() ==> final(report)@.severity_current(),
{
    let ghost start = report@;
    let mut keys: Vec<u64> = Vec::new();
    let mut k: usize = 0;
    while k < procs.len()
        invariant
            k <= procs.len(),
            keys@ == keys_of(procs@).take(k as int),
        decreases procs.len() - k,
    {
        keys.push(procs[k].usage.value.order_key());
        assert(keys@ =~= keys_of(procs@).take(k + 1));
        k += 1;
    }
    assert(keys_of(procs@).take(procs.len() as int) =~= keys_of(procs@));
    let order = rank_descending(&keys);
    let ghost ranks = order@.map_values(|i: usize| i as int);
    let top: usize = if top_n <= procs.len() {
        top_n
    } else {
        procs.len()
    };
    let mut i: usize = 0;
    assert(report@.findings =~= start.findings + process_findings_upto(procs@, ranks, 0));
    while i < top
        invariant
            i <= top <= procs.len(),
            order.len() == procs.len(),
            ranks == order@.map_values(|i: usize| i as int),
            forall|j: int| 0 <= j < order.len() ==> (#[trigger] order[j]) < procs.len(),
            start.severity_current() ==> report@.severity_current(),
            report@ == (ReportView {
                findings: start.findings + process_findings_upto(procs@, ranks, i as int),
                overall_severity: report@.overall_severity,
                ..start
            }),
        decreases top - i,
    {
        assert(ranks[i as int] == order[i as int] as int);
        let p = &procs[order[i]];
        if !p.usage.value.lt(FloatBits::new(BITS_HALF)) {
            let user = match &p.user {
                Some(id) => id.clone(),
                None => "?".to_owned(),
            };
            report.add_finding(
                Finding::new(
                    if p.usage.value.gt(FloatBits::new(BITS_50)) {
                        Severity::Warning
                    } else {
                        Severity::Info
                    },
                    "process",
                    cat2(
                        cat5(
                            p.name.as_str(),
                            " (PID ",
                            u64_to_string(p.pid as u64).as_str(),
                            ") consuming ",
                            p.usage.text.as_str(),
                        ).as_str(),
                        "% CPU",
                    ),
                    Some(
                        cat4(
                            "Memory: ",
                            u64_to_string(p.memory / 1024).as_str(),
                            " KB, User: ",
                            user.as_str(),
                        ),
                    ),
                ),
            );
        }
        assert(report@.findings =~= start.findings + process_findings_upto(procs@, ranks, i + 1));
        i += 1;
    }
}

/// The CPU report for what was read: usage, load and cores, the processes
/// that take most CPU time, and a recommendation above 80 percent usage.
pub fn report(probe: &CpuProbe, config: &ModuleConfig) -> (r: DiagnosticReport)
    ensures
        r@ == cpu_report(*probe, config@, r@.timestamp),
        r@.severity_current(),
{
    let usage = probe.usage.value;
    let high = usage.gt(FloatBits::new(BITS_80));
    let mut report = DiagnosticReport::new(
        "cpu",
        if high {
            "High CPU utilization detected"
        } else if usage.gt(FloatBits::new(BITS_50)) {
            "Moderate CPU usage"
        } else {
            "CPU usage within normal range"
        },
    );
    report.add_metric(
        Metric::text(
            "Load Average".to_owned(),
            cat2(
                cat5(
                    probe.load_one.as_str(),
                    " / ",
                    probe.load_five.as_str(),
                    " / ",
                    probe.load_fifteen.as_str(),
                ).as_str(),
                " (1m / 5m / 15m)",
            ),
        ),
    );
    report.add_metric(
        Metric::new(
            "CPU Usage".to_owned(),
            MetricValue::Float(usage),
            Some("%".to_owned()),
            Some(Threshold::of_bits(BITS_70, BITS_90)),
        ),
    );
    report.add_metric(Metric::integer("CPU Cores".to_owned(), to_signed(probe.cores), None));
    assert(report@.metrics =~= cpu_metrics(*probe));
    add_top_processes(&mut report, &probe.processes, config.top_n);
    if high {
        report.add_recommendation(
            Recommendation::new(
                1,
                "Identify and reduce load from top processes (close tabs, stop heavy tasks).".to_owned(),
                Some("ps aux --sort=-%cpu | head -n 15".to_owned()),
                "High CPU often comes from browsers, IDEs, or background indexing.",
            ),
        );
    }
    report.compute_overall_severity();
    proof {
        let want = cpu_report(*probe, config@, report@.timestamp);
        assert(report@.findings =~= want.findings);
        assert(report@.recommendations =~= want.recommendations);
    }
    report
}

impl DiagnosticModule for CpuModule {
    open spec fn name_text(&self) -> Seq<char> {
        "cpu"@
    }

    open spec fn description_text(&self) -> Seq<char> {
        "Explain high CPU usage and identify top consumers"@
    }

    open spec fn available(&self) -> bool {
        true
    }

    open spec fn run_allows(
        &self,
        config: ModuleConfigView,
        outcome: Result<ReportView, ExecutionErrorView>,
    ) -> bool {
        outcome matches Ok(r) && r == cpu_report(self.probe, config, r.timestamp)
    }

    fn name(&self) -> (r: &'static str) {
        "cpu"
    }

    fn description(&self) -> (r: &'static str) {
        "Explain high CPU usage and identify top consumers"
    }

    fn is_available(&self) -> (b: bool) {
        true
    }

    fn run(&self, config: &ModuleConfig) -> (r: Result<DiagnosticReport, ExecutionError>) {
        Ok(report(&self.probe, config))
    }
}

/// The CPU module on what was read from the host.
pub fn module(probe: CpuProbe) -> (m: CpuModule)
    ensures
        m.probe == probe,
{
    CpuModule { probe }
}

} // verus!
