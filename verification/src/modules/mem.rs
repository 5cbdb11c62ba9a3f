//! Memory usage explanation: totals from `/proc/meminfo`, swap, top consumers.

use crate::framework::float_bits::{FloatBits, Reading, BITS_50, BITS_80, BITS_85, BITS_90, BITS_95};
use crate::framework::report::{
    assembled, DiagnosticReport, Finding, FindingView, Metric, MetricValue, MetricValueView,
    MetricView, Recommendation, RecommendationView, ReportView, Threshold, Timestamp,
};
use crate::framework::severity::Severity;
use crate::framework::traits::{
    DiagnosticModule, ExecutionError, ExecutionErrorView, ModuleConfig, ModuleConfigView,
};
use crate::utils::files::FileRead;
use crate::utils::format::{byte_size_text, decimal_text, format_bytes, u64_to_string};
use crate::utils::math::{at_most, kib_to_bytes, minus_or_zero, saturating_minus, to_bytes};
use crate::utils::parse::{key_value_of, parse_key_value_as, u64_of};
use crate::utils::ranking::{rank_descending, ranking};
use crate::utils::split::{lines, lines_of, texts};
use crate::utils::text::{cat2, cat3, cat4, cat5, str_eq};
use vstd::prelude::*;

verus! {

/// How much memory a process holds.
#[derive(Debug, Clone)]
pub struct ProcessMemory {
    pub pid: u32,
    pub name: String,
    /// Resident set size in bytes.
    pub rss: u64,
}

/// What the memory module reads from the host.
#[derive(Debug, Clone)]
pub struct MemProbe {
    /// What reading `/proc/meminfo` gave.
    pub meminfo: FileRead,
    /// Memory in use as a percentage of all memory; 0 where the total is 0.
    pub usage: Reading,
    /// Swap in use as a percentage of all swap, rendered without decimals.
    pub swap: Reading,
    /// The processes, in the order in which the host lists them.
    pub processes: Vec<ProcessMemory>,
}

/// The memory module, on what it read.
#[derive(Debug, Clone)]
pub struct MemModule {
    pub probe: MemProbe,
}

/// The name and number of a `key: value` line, where it holds both.
pub open spec fn entry_of(line: Seq<char>) -> Option<(Seq<char>, u64)> {
    match key_value_of(line) {
        Some(kv) => match u64_of(kv.1) {
            Some(n) => Some((kv.0, n)),
            None => None,
        },
        None => None,
    }
}

/// The entries of the first `n` lines, in order.
pub open spec fn entries_upto(ls: Seq<Seq<char>>, n: int) -> Seq<(Seq<char>, u64)>
    decreases n,
{
    if n <= 0 {
        Seq::empty()
    } else {
        match entry_of(ls[n - 1]) {
            Some(e) => entries_upto(ls, n - 1).push(e),
            None => entries_upto(ls, n - 1),
        }
    }
}

/// The entries of the content of `/proc/meminfo`.
pub open spec fn entries_of(content: Seq<char>) -> Seq<(Seq<char>, u64)> {
    entries_upto(lines_of(content), lines_of(content).len() as int)
}

/// The number of the last entry called `key`, or 0 where there is none.
pub open spec fn value_in(entries: Seq<(Seq<char>, u64)>, key: Seq<char>) -> u64
    decreases entries.len(),
{
    if entries.len() == 0 {
        0
    } else if entries.last().0 == key {
        entries.last().1
    } else {
        value_in(entries.drop_last(), key)
    }
}

/// The sizes that `/proc/meminfo` states, in kibibytes.
pub ghost struct MemSizes {
    pub total: u64,
    pub used: u64,
    pub swap_total: u64,
    pub swap_used: u64,
}

/// The sizes that the entries state: memory in use is what is not
/// available, swap in use is what is not free.
pub open spec fn sizes_of(entries: Seq<(Seq<char>, u64)>) -> MemSizes {
    MemSizes {
        total: value_in(entries, "MemTotal"@),
        used: minus_or_zero(value_in(entries, "MemTotal"@), value_in(entries, "MemAvailable"@)),
        swap_total: value_in(entries, "SwapTotal"@),
        swap_used: minus_or_zero(value_in(entries, "SwapTotal"@), value_in(entries, "SwapFree"@)),
    }
}

/// A metric that holds a size as text.
pub open spec fn size_metric(name: Seq<char>, bytes: u64) -> MetricView {
    MetricView {
        name,
        value: MetricValueView::Text(byte_size_text(bytes)),
        unit: None,
        threshold: None,
    }
}

/// Whether swap is looked at: where there is any, unless the option `swap`
/// is set to something other than `true`.
pub open spec fn swap_shown(sizes: MemSizes, config: ModuleConfigView) -> bool {
    config.flag("swap"@, true) && sizes.swap_total > 0
}

/// The metrics of a memory report.
pub open spec fn mem_metrics(probe: MemProbe, sizes: MemSizes, config: ModuleConfigView) -> Seq<
    MetricView,
> {
    seq![
        size_metric("Memory total"@, kib_to_bytes(sizes.total)),
        size_metric("Memory used"@, kib_to_bytes(sizes.used)),
        MetricView {
            name: "Memory usage"@,
            value: MetricValueView::Float(probe.usage.value),
            unit: Some("%"@),
            threshold: Some(
                Threshold {
                    warning: FloatBits { bits: BITS_80 },
                    critical: FloatBits { bits: BITS_95 },
                },
            ),
        },
    ] + if swap_shown(sizes, config) {
        seq![size_metric("Swap used"@, kib_to_bytes(sizes.swap_used))]
    } else {
        Seq::empty()
    }
}

/// The warnings on swap usage above 50 percent and memory usage above 90 percent.
pub open spec fn pressure_findings(probe: MemProbe, sizes: MemSizes, config: ModuleConfigView) -> Seq<
    FindingView,
> {
    (if swap_shown(sizes, config) && probe.swap.value.spec_gt(FloatBits { bits: BITS_50 }) {
        seq![
            FindingView {
                severity: Severity::Warning,
                category: "swap"@,
                message: "High swap usage ("@ + probe.swap.text@
                    + "%); system may be under memory pressure."@,
                details: Some("Consider adding RAM or reducing memory-hungry processes."@),
            },
        ]
    } else {
        Seq::empty()
    }) + (if probe.usage.value.spec_gt(FloatBits { bits: BITS_90 }) {
        seq![
            FindingView {
                severity: Severity::Warning,
                category: "mem"@,
                message: "Memory usage is very high; OOM risk if load increases."@,
                details: Some(
                    "Used "@ + byte_size_text(kib_to_bytes(sizes.used)) + " of "@ + byte_size_text(
                        kib_to_bytes(sizes.total),
                    ),
                ),
            },
        ]
    } else {
        Seq::empty()
    })
}

/// The resident size from which a process is reported: 50 MiB.
pub const LARGE_RSS: u64 = 52_428_800;

/// The finding on a process that holds much memory.
pub open spec fn process_finding(p: ProcessMemory) -> FindingView {
    FindingView {
        severity: Severity::Info,
        category: "process"@,
        message: p.name@ + " (PID "@ + decimal_text(p.pid as nat) + ") uses "@ + byte_size_text(
            p.rss,
        ),
        details: Some("RSS (resident set size)"@),
    }
}

/// The findings on the first `n` processes of a ranking that hold at least 50 MiB.
pub open spec fn process_findings_upto(procs: Seq<ProcessMemory>, order: Seq<int>, n: int) -> Seq<
    FindingView,
>
    decreases n,
{
    if n <= 0 {
        Seq::empty()
    } else {
        process_findings_upto(procs, order, n - 1) + if procs[order[n - 1]].rss >= LARGE_RSS {
            seq![process_finding(procs[order[n - 1]])]
        } else {
            Seq::empty()
        }
    }
}

/// The processes' resident sizes, in order.
pub open spec fn sizes_in(procs: Seq<ProcessMemory>) -> Seq<u64> {
    procs.map_values(|p: ProcessMemory| p.rss)
}

/// The findings on the `top_n` processes that hold most memory.
pub open spec fn top_findings(procs: Seq<ProcessMemory>, top_n: usize) -> Seq<FindingView> {
    process_findings_upto(
        procs,
        ranking(sizes_in(procs), procs.len() as int),
        at_most(top_n as int, procs.len() as int),
    )
}

/// The memory report for what was read, generated at `at`.
pub open spec fn mem_report(probe: MemProbe, config: ModuleConfigView, at: Timestamp) -> ReportView {
    match probe.meminfo {
        FileRead::Failed(why) => assembled(
            "mem"@,
            "Memory analysis"@,
            at,
            seq![
                FindingView {
                    severity: Severity::Critical,
                    category: "mem"@,
                    message: "Cannot read /proc/meminfo"@,
                    details: Some(why@),
                },
            ],
            Seq::empty(),
            Seq::empty(),
        ),
        FileRead::Content(content) => {
            let sizes = sizes_of(entries_of(content@));
            assembled(
                "mem"@,
                "Memory analysis"@,
                at,
                pressure_findings(probe, sizes, config) + top_findings(
                    probe.processes@,
                    config.top_n,
                ),
                mem_metrics(probe, sizes, config),
                if probe.usage.value.spec_gt(FloatBits { bits: BITS_85 }) {
                    seq![
                        RecommendationView {
                            priority: 1,
                            action: "Identify and reduce memory-heavy processes or add RAM."@,
                            command: Some("ps aux --sort=-%mem | head -15"@),
                            explanation: "High memory usage can cause swapping and slowdowns."@,
                        },
                    ]
                } else {
                    Seq::empty()
                },
            )
        },
    }
}

/// The names and numbers of the lines of `/proc/meminfo` that hold both.
pub fn read_meminfo(content: &str) -> (r: Vec<(String, u64)>)
    ensures
        r@.map_values(|e: (String, u64)| (e.0@, e.1)) == entries_of(content@),
{
    let ls = lines(content);
    let mut out: Vec<(String, u64)> = Vec::new();
    let mut i: usize = 0;
    while i < ls.len()
        invariant
            i <= ls.len(),
            texts(ls@) == lines_of(content@),
            out@.map_values(|e: (String, u64)| (e.0@, e.1)) == entries_upto(texts(ls@), i as int),
        decreases ls.len() - i,
    {
        assert(texts(ls@)[i as int] == ls[i as int]@);
        let ghost before = out@.map_values(|e: (String, u64)| (e.0@, e.1));
        if let Some(entry) = parse_key_value_as(ls[i].as_str()) {
            out.push(entry);
            assert(out@.map_values(|e: (String, u64)| (e.0@, e.1)) =~= before.push(
                (entry.0@, entry.1),
            ));
        }
        i += 1;
    }
    out
}

/// The number of the last entry called `key`, or 0 where there is none.
pub fn meminfo_value(entries: &Vec<(String, u64)>, key: &str) -> (r: u64)
    ensures
        r == value_in(entries@.map_values(|e: (String, u64)| (e.0@, e.1)), key@),
{
    let ghost all = entries@.map_values(|e: (String, u64)| (e.0@, e.1));
    let mut i: usize = entries.len();
    assert(all.take(i as int) =~= all);
    while i > 0
        invariant
            i <= entries.len(),
            all == entries@.map_values(|e: (String, u64)| (e.0@, e.1)),
            value_in(all, key@) == value_in(all.take(i as int), key@),
        decreases i,
    {
        assert(all.take(i as int).drop_last() =~= all.take(i - 1));
        assert(all.take(i as int).last() == (entries[i - 1].0@, entries[i - 1].1));
        if str_eq(entries[i - 1].0.as_str(), key) {
            return entries[i - 1].1;
        }
        i -= 1;
    }
    0
}

/// Appends the findings on the `top_n` processes that hold most memory.
fn add_top_processes(report: &mut DiagnosticReport, procs: &Vec<ProcessMemory>, top_n: usize)
    ensures
        final(report)@ == (ReportView {
            findings: old(report)@.findings + top_findings(procs@, top_n),
            overall_severity: final(report)@.overall_severity,
            ..old(report)@
        }),
        old(report)@.severity_current() ==> final(report)@.severity_current(),
{
    let ghost start = report@;
    let mut keys: Vec<u64> = Vec::new();
    let mut k: usize = 0;
    while k < procs.len()
        invariant
            k <= procs.len(),
            keys@ == sizes_in(procs@).take(k as int),
        decreases procs.len() - k,
    {
        keys.push(procs[k].rss);
        assert(keys@ =~= sizes_in(procs@).take(k + 1));
        k += 1;
    }
    assert(sizes_in(procs@).take(procs.len() as int) =~= sizes_in(procs@));
    let order = rank_descending(&keys);
    let ghost ranks = order@.map_values(|i: usize| i as int);
    let top: usize = if top_n <= procs.len() {
        top_n
    } else {
        procs.len()
    };
    let mut i: usize = 0;
    assert(report@.findings =~= start.findings + process_findings_upto(procs@, ranks, 0));
    while i < top
        invariant
            i <= top <= procs.len(),
            order.len() == procs.len(),
            ranks == order@.map_values(|i: usize| i as int),
            forall|j: int| 0 <= j < order.len() ==> (#[trigger] order[j]) < procs.len(),
            start.severity_current() ==> report@.severity_current(),
            report@ == (ReportView {
                findings: start.findings + process_findings_upto(procs@, ranks, i as int),
                overall_severity: report@.overall_severity,
                ..start
            }),
        decreases top - i,
    {
        assert(ranks[i as int] == order[i as int] as int);
        let p = &procs[order[i]];
        if p.rss >= LARGE_RSS {
            report.add_finding(
                Finding::new(
                    Severity::Info,
                    "process",
                    cat5(
                        p.name.as_str(),
                        " (PID ",
                        u64_to_string(p.pid as u64).as_str(),
                        ") uses ",
                        format_bytes(p.rss).as_str(),
                    ),
                    Some("RSS (resident set size)".to_owned()),
                ),
            );
        }
        assert(report@.findings =~= start.findings + process_findings_upto(procs@, ranks, i + 1));
        i += 1;
    }
}

/// The memory report for what was read: a `Critical` finding where
/// `/proc/meminfo` could not be read, else the sizes it states, warnings on
/// high memory and swap usage, and the processes that hold most memory.
pub fn report(probe: &MemProbe, config: &ModuleConfig) -> (r: DiagnosticReport)
    ensures
        r@ == mem_report(*probe, config@, r@.timestamp),
        r@.severity_current(),
{
    let mut report = DiagnosticReport::new("mem", "Memory analysis");
    let content = match &probe.meminfo {
        FileRead::Content(content) => content,
        FileRead::Failed(why) => {
            report.add_finding(
                Finding::new(
                    Severity::Critical,
                    "mem",
                    "Cannot read /proc/meminfo".to_owned(),
                    Some(why.clone()),
                ),
            );
            assert(report@.findings =~= mem_report(*probe, config@, report@.timestamp).findings);
            return report;
        },
    };
    let entries = read_meminfo(content.as_str());
    let total_kb = meminfo_value(&entries, "MemTotal");
    let avail_kb = meminfo_value(&entries, "MemAvailable");
    let swap_total_kb = meminfo_value(&entries, "SwapTotal");
    let swap_free_kb = meminfo_value(&entries, "SwapFree");
    let used_bytes = to_bytes(saturating_minus(total_kb, avail_kb));
    let total_bytes = to_bytes(total_kb);
    let ghost sizes = sizes_of(entries_of(content@));

    report.add_metric(Metric::text("Memory total".to_owned(), format_bytes(total_bytes)));
    report.add_metric(Metric::text("Memory used".to_owned(), format_bytes(used_bytes)));
    report.add_metric(
        Metric::new(
            "Memory usage".to_owned(),
            MetricValue::Float(probe.usage.value),
            Some("%".to_owned()),
            Some(Threshold::of_bits(BITS_80, BITS_95)),
        ),
    );
    if config.flag("swap", true) && swap_total_kb > 0 {
        let swap_used_kb = saturating_minus(swap_total_kb, swap_free_kb);
        report.add_metric(Metric::text("Swap used".to_owned(), format_bytes(to_bytes(swap_used_kb))));
        if probe.swap.value.gt(FloatBits::new(BITS_50)) {
            report.add_finding(
                Finding::new(
                    Severity::Warning,
                    "swap",
                    cat3(
                        "High swap usage (",
                        probe.swap.text.as_str(),
                        "%); system may be under memory pressure.",
                    ),
                    Some("Consider adding RAM or reducing memory-hungry processes.".to_owned()),
                ),
            );
        }
    }
    if probe.usage.value.gt(FloatBits::new(BITS_90)) {
        report.add_finding(
            Finding::new(
                Severity::Warning,
                "mem",
                "Memory usage is very high; OOM risk if load increases.".to_owned(),
                Some(
                    cat4(
                        "Used ",
                        format_bytes(used_bytes).as_str(),
                        " of ",
                        format_bytes(total_bytes).as_str(),
                    ),
                ),
            ),
        );
    }
    assert(report@.metrics =~= mem_metrics(*probe, sizes, config@));
    assert(report@.findings =~= pressure_findings(*probe, sizes, config@));
    add_top_processes(&mut report, &probe.processes, config.top_n);
    if probe.usage.value.gt(FloatBits::new(BITS_85)) {
        report.add_recommendation(
            Recommendation::new(
                1,
                "Identify and reduce memory-heavy processes or add RAM.".to_owned(),
                Some("ps aux --sort=-%mem | head -15".to_owned()),
                "High memory usage can cause swapping and slowdowns.",
            ),
        );
    }
    report.compute_overall_severity();
    proof {
        assert(report@.recommendations =~= mem_report(
            *probe,
            config@,
            report@.timestamp,
        ).recommendations);
    }
    report
}

impl DiagnosticModule for MemModule {
    open spec fn name_text(&self) -> Seq<char> {
        "mem"@
    }

    open spec fn description_text(&self) -> Seq<char> {
        "Explain memory consumption and identify top consumers"@
    }

    open spec fn available(&self) -> bool {
        true
    }

    open spec fn run_allows(
        &self,
        config: ModuleConfigView,
        outcome: Result<ReportView, ExecutionErrorView>,
    ) -> bool {
        outcome matches Ok(r) && r == mem_report(self.probe, config, r.timestamp)
    }

    fn name(&self) -> (r: &'static str) {
        "mem"
    }

    fn description(&self) -> (r: &'static str) {
        "Explain memory consumption and identify top consumers"
    }

    fn is_available(&self) -> (b: bool) {
        true
    }

    fn run(&self, config: &ModuleConfig) -> (r: Result<DiagnosticReport, ExecutionError>) {
        Ok(report(&self.probe, config))
    }
}

/// The memory module on what was read from the host.
pub fn module(probe: MemProbe) -> (m: MemModule)
    ensures
        m.probe == probe,
{
    MemModule { probe }
}

} // verus!
