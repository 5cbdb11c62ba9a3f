//! Disk I/O explanation: traffic of block devices and of processes.

use crate::framework::report::{
    assembled, DiagnosticReport, Finding, FindingView, Metric, MetricValueView, MetricView,
    Recommendation, RecommendationView, ReportView, Timestamp,
};
use crate::framework::severity::Severity;
use crate::framework::traits::{
    DiagnosticModule, ExecutionError, ExecutionErrorView, ModuleConfig, ModuleConfigView,
};
use crate::utils::format::{byte_size_text, decimal_text, format_bytes, u64_to_string};
use crate::utils::math::{add_capped, at_most, plus_capped};
use crate::utils::parse::{plain_u64, u64_of};
use crate::utils::ranking::{rank_descending, ranking};
use crate::utils::split::{lines, lines_of, split_whitespace, texts, words_of};
use crate::utils::text::{
    cat2, cat4, contains_text, starts_with, str_contains, str_starts_with, trim_end, trimmed_end,
};
use vstd::prelude::*;

verus! {

/// What was read about one process.
#[derive(Debug, Clone)]
pub struct ProcessFiles {
    pub pid: u32,
    /// Content of `/proc/<pid>/io`, `None` where it is unreadable.
    pub io: Option<String>,
    /// Content of `/proc/<pid>/comm`, `None` where it is unreadable.
    pub comm: Option<String>,
}

/// What the I/O module reads from the host.
#[derive(Debug, Clone)]
pub struct IoProbe {
    /// Content of `/proc/diskstats`, `None` where it is unreadable.
    pub diskstats: Option<String>,
    /// The processes, in the order in which `/proc` lists them.
    pub processes: Vec<ProcessFiles>,
}

/// The I/O module, on what it read.
#[derive(Debug, Clone)]
pub struct IoModule {
    pub probe: IoProbe,
}

/// The traffic from which a process is reported: more than 10 MiB.
pub const LARGE_TRAFFIC: u64 = 10_485_760;

/// The product of a number of sectors and 512, at most the largest `u64`.
pub open spec fn sectors_to_bytes(sectors: u64) -> u64 {
    if sectors * 512 <= u64::MAX {
        (sectors * 512) as u64
    } else {
        u64::MAX
    }
}

/// The number that a field holds, or 0.
pub open spec fn count_or_zero(field: Seq<char>) -> u64 {
    match u64_of(field) {
        Some(n) => n,
        None => 0,
    }
}

/// A block device with the bytes it has read and written.
pub ghost struct DeviceTraffic {
    pub name: Seq<char>,
    pub read: u64,
    pub written: u64,
}

/// The device that a line of `/proc/diskstats` describes, where it has at
/// least 14 fields: the third is its name, the sixth and tenth count the
/// sectors read and written.
pub open spec fn device_of(line: Seq<char>) -> Option<DeviceTraffic> {
    let parts = words_of(line);
    if parts.len() >= 14 {
        Some(
            DeviceTraffic {
                name: parts[2],
                read: sectors_to_bytes(count_or_zero(parts[5])),
                written: sectors_to_bytes(count_or_zero(parts[9])),
            },
        )
    } else {
        None
    }
}

/// Whether a device is reported: it is neither a RAM disk nor a loop
/// device, its name holds the filter, and it has moved data.
pub open spec fn is_reported(d: DeviceTraffic, filter: Option<Seq<char>>) -> bool {
    &&& !starts_with(d.name, "ram"@)
    &&& !starts_with(d.name, "loop"@)
    &&& filter is Some ==> contains_text(d.name, filter->0)
    &&& plus_capped(d.read, d.written) > 0
}

/// The metrics of one line of `/proc/diskstats`.
pub open spec fn device_metrics(line: Seq<char>, filter: Option<Seq<char>>) -> Seq<MetricView> {
    match device_of(line) {
        Some(d) => if is_reported(d, filter) {
            seq![
                MetricView {
                    name: d.name + " read"@,
                    value: MetricValueView::Text(byte_size_text(d.read)),
                    unit: None,
                    threshold: None,
                },
                MetricView {
                    name: d.name + " write"@,
                    value: MetricValueView::Text(byte_size_text(d.written)),
                    unit: None,
                    threshold: None,
                },
            ]
        } else {
            Seq::empty()
        },
        None => Seq::empty(),
    }
}

/// The metrics of the first `n` lines of `/proc/diskstats`.
pub open spec fn devices_upto(ls: Seq<Seq<char>>, filter: Option<Seq<char>>, n: int) -> Seq<
    MetricView,
>
    decreases n,
{
    if n <= 0 {
        Seq::empty()
    } else {
        devices_upto(ls, filter, n - 1) + device_metrics(ls[n - 1], filter)
    }
}

/// The metrics of the block devices.
pub open spec fn all_devices(diskstats: Option<String>, filter: Option<Seq<char>>) -> Seq<
    MetricView,
> {
    match diskstats {
        Some(content) => devices_upto(
            lines_of(content@),
            filter,
            lines_of(content@).len() as int,
        ),
        None => Seq::empty(),
    }
}

/// The number in the second field of a line.
pub open spec fn number_after(line: Seq<char>) -> Option<u64> {
    if words_of(line).len() > 1 {
        u64_of(words_of(line)[1])
    } else {
        None
    }
}

/// The bytes read and written that the first `n` lines of a process's `io`
/// file state: the numbers of the last `read_bytes:` and `write_bytes:`
/// lines, 0 where there is no such line, and `None` where such a line holds
/// no number.
pub open spec fn traffic_upto(ls: Seq<Seq<char>>, n: int) -> Option<(u64, u64)>
    decreases n,
{
    if n <= 0 {
        Some((0u64, 0u64))
    } else {
        match traffic_upto(ls, n - 1) {
            Some(rw) => if starts_with(ls[n - 1], "read_bytes:"@) {
                match number_after(ls[n - 1]) {
                    Some(r) => Some((r, rw.1)),
                    None => None,
                }
            } else if starts_with(ls[n - 1], "write_bytes:"@) {
                match number_after(ls[n - 1]) {
                    Some(w) => Some((rw.0, w)),
                    None => None,
                }
            } else {
                Some(rw)
            },
            None => None,
        }
    }
}

/// The bytes that a process has read and written.
pub open spec fn traffic_of(io: Option<String>) -> Option<(u64, u64)> {
    match io {
        Some(content) => traffic_upto(lines_of(content@), lines_of(content@).len() as int),
        None => None,
    }
}

/// A process with the bytes it has read and written.
pub ghost struct ProcessTraffic {
    pub pid: u32,
    pub name: Seq<char>,
    pub read: u64,
    pub written: u64,
}

/// How a process is called: its command name without trailing whitespace,
/// or `pid` and its number.
pub open spec fn called(p: ProcessFiles) -> Seq<char> {
    match p.comm {
        Some(comm) => trimmed_end(comm@),
        None => trimmed_end("pid "@ + decimal_text(p.pid as nat)),
    }
}

/// The processes among the first `n` that have moved more than 10 MiB.
pub open spec fn busy_upto(procs: Seq<ProcessFiles>, n: int) -> Seq<ProcessTraffic>
    decreases n,
{
    if n <= 0 {
        Seq::empty()
    } else {
        match traffic_of(procs[n - 1].io) {
            Some(rw) => if plus_capped(rw.0, rw.1) > LARGE_TRAFFIC {
                busy_upto(procs, n - 1).push(
                    ProcessTraffic {
                        pid: procs[n - 1].pid,
                        name: called(procs[n - 1]),
                        read: rw.0,
                        written: rw.1,
                    },
                )
            } else {
                busy_upto(procs, n - 1)
            },
            None => busy_upto(procs, n - 1),
        }
    }
}

/// The traffic by which processes are ranked.
pub open spec fn keys_of(busy: Seq<ProcessTraffic>) -> Seq<u64> {
    busy.map_values(|p: ProcessTraffic| plus_capped(p.read, p.written))
}

/// The finding on a busy process.
pub open spec fn process_finding(p: ProcessTraffic) -> FindingView {
    FindingView {
        severity: Severity::Info,
        category: "process"@,
        message: p.name + " (PID "@ + decimal_text(p.pid as nat) + ") – read "@
            + byte_size_text(p.read) + ", write "@ + byte_size_text(p.written),
        details: Some("Cumulative I/O since process start."@),
    }
}

/// The findings on the first `n` processes of a ranking.
pub open spec fn process_findings_upto(busy: Seq<ProcessTraffic>, order: Seq<int>, n: int) -> Seq<
    FindingView,
>
    decreases n,
{
    if n <= 0 {
        Seq::empty()
    } else {
        process_findings_upto(busy, order, n - 1).push(process_finding(busy[order[n - 1]]))
    }
}

/// The findings on the `top_n` busiest processes.
pub open spec fn busiest_findings(procs: Seq<ProcessFiles>, top_n: usize) -> Seq<FindingView> {
    let busy = busy_upto(procs, procs.len() as int);
    process_findings_upto(
        busy,
        ranking(keys_of(busy), busy.len() as int),
        at_most(top_n as int, busy.len() as int),
    )
}

/// The I/O report for what was read, generated at `at`.
pub open spec fn io_report(probe: IoProbe, config: ModuleConfigView, at: Timestamp) -> ReportView {
    let metrics = all_devices(probe.diskstats, config.extra("device"@));
    let findings = busiest_findings(probe.processes@, config.top_n);
    let quiet = findings.len() == 0 && metrics.len() == 0;
    assembled(
        "io"@,
        if quiet {
            "No significant disk I/O detected."@
        } else {
            "Disk I/O analysis"@
        },
        at,
        findings,
        metrics,
        if quiet {
            Seq::empty()
        } else {
            seq![
                RecommendationView {
                    priority: 2,
                    action: "Use iotop or 'pidstat -d' for live I/O monitoring."@,
                    command: Some("iotop -o -b -n 3"@),
                    explanation: "Identify processes causing I/O spikes."@,
                },
            ]
        },
    )
}

/// A number of sectors in bytes, at most the largest `u64`.
pub fn sector_bytes(sectors: u64) -> (r: u64)
    ensures
        r == sectors_to_bytes(sectors),
{
    match sectors.checked_mul(512) {
        Some(bytes) => bytes,
        None => u64::MAX,
    }
}

/// The number that a text denotes, or 0.
pub fn number_or_zero(s: &str) -> (r: u64)
    ensures
        r == count_or_zero(s@),
{
    match plain_u64(s) {
        Some(n) => n,
        None => 0,
    }
}

/// The bytes that a process has read and written, from the content of its `io` file.
pub fn read_process_io(content: &str) -> (r: Option<(u64, u64)>)
    ensures
        r == traffic_upto(lines_of(content@), lines_of(content@).len() as int),
{
    let ls = lines(content);
    let mut read: u64 = 0;
    let mut written: u64 = 0;
    let mut i: usize = 0;
    while i < ls.len()
        invariant
            i <= ls.len(),
            texts(ls@) == lines_of(content@),
            traffic_upto(texts(ls@), i as int) == Some((read, written)),
        decreases ls.len() - i,
    {
        let line = ls[i].as_str();
        assert(texts(ls@)[i as int] == line@);
        let reads = str_starts_with(line, "read_bytes:");
        let writes = str_starts_with(line, "write_bytes:");
        if reads || writes {
            let parts = split_whitespace(line);
            let number = if parts.len() > 1 {
                assert(texts(parts@)[1] == parts[1]@);
                plain_u64(parts[1].as_str())
            } else {
                None
            };
            match number {
                Some(n) => {
                    if reads {
                        read = n;
                    } else {
                        written = n;
                    }
                },
                None => {
                    proof {
                        lemma_traffic_fails(texts(ls@), i + 1, ls.len() as int);
                    }
                    return None;
                },
            }
        }
        i += 1;
    }
    Some((read, written))
}

/// Once a line holds no number, no later line makes up for it.
pub proof fn lemma_traffic_fails(ls: Seq<Seq<char>>, k: int, n: int)
    requires
        0 <= k <= n,
        traffic_upto(ls, k) is None,
    ensures
        traffic_upto(ls, n) is None,
    decreases n - k,
{
    if k < n {
        lemma_traffic_fails(ls, k, n - 1);
    }
}

/// Appends the metrics of the block devices.
fn add_devices(report: &mut DiagnosticReport, diskstats: &Option<String>, filter: &Option<String>)
    ensures
        final(report)@ == (ReportView {
            metrics: old(report)@.metrics + all_devices(
                *diskstats,
                crate::framework::report::opt_text(*filter),
            ),
            ..old(report)@
        }),
{
    let ghost start = report@;
    let ghost wanted = crate::framework::report::opt_text(*filter);
    let content = match diskstats {
        Some(content) => content,
        None => {
            assert(report@.metrics =~= start.metrics + all_devices(*diskstats, wanted));
            return ;
        },
    };
    let ls = lines(content.as_str());
    let mut i: usize = 0;
    assert(report@.metrics =~= start.metrics + devices_upto(texts(ls@), wanted, 0));
    while i < ls.len()
        invariant
            i <= ls.len(),
            texts(ls@) == lines_of(content@),
            wanted == crate::framework::report::opt_text(*filter),
            report@ == (ReportView {
                metrics: start.metrics + devices_upto(texts(ls@), wanted, i as int),
                ..start
            }),
        decreases ls.len() - i,
    {
        assert(texts(ls@)[i as int] == ls[i as int]@);
        let parts = split_whitespace(ls[i].as_str());
        if parts.len() >= 14 {
            assert(texts(parts@)[2] == parts[2]@);
            assert(texts(parts@)[5] == parts[5]@);
            assert(texts(parts@)[9] == parts[9]@);
            let name = parts[2].as_str();
            let read = sector_bytes(number_or_zero(parts[5].as_str()));
            let written = sector_bytes(number_or_zero(parts[9].as_str()));
            let passes = match filter {
                Some(f) => str_contains(name, f.as_str()),
                None => true,
            };
            if !str_starts_with(name, "ram") && !str_starts_with(name, "loop") && passes
                && add_capped(read, written) > 0 {
                report.add_metric(Metric::text(cat2(name, " read"), format_bytes(read)));
                report.add_metric(Metric::text(cat2(name, " write"), format_bytes(written)));
            }
        }
        assert(report@.metrics =~= start.metrics + devices_upto(texts(ls@), wanted, i + 1));
        i += 1;
    }
}

/// A busy process with its name as a string.
struct Busy {
    pid: u32,
    name: String,
    read: u64,
    written: u64,
}

/// The content of a busy process.
spec fn busy_view(b: Busy) -> ProcessTraffic {
    ProcessTraffic { pid: b.pid, name: b.name@, read: b.read, written: b.written }
}

/// Appends the findings on the `top_n` busiest processes.
fn add_busiest(report: &mut DiagnosticReport, procs: &Vec<ProcessFiles>, top_n: usize)
    ensures
        final(report)@ == (ReportView {
            findings: old(report)@.findings + busiest_findings(procs@, top_n),
            overall_severity: final(report)@.overall_severity,
            ..old(report)@
        }),
        old(report)@.severity_current() ==> final(report)@.severity_current(),
{
    let ghost start = report@;
    let mut busy: Vec<Busy> = Vec::new();
    let mut keys: Vec<u64> = Vec::new();
    let mut k: usize = 0;
    assert(busy@.map_values(|b: Busy| busy_view(b)) =~= busy_upto(procs@, 0));
    assert(keys@ =~= keys_of(busy_upto(procs@, 0)));
    while k < procs.len()
        invariant
            k <= procs.len(),
            busy@.map_values(|b: Busy| busy_view(b)) == busy_upto(procs@, k as int),
            keys@ == keys_of(busy_upto(procs@, k as int)),
        decreases procs.len() - k,
    {
        let ghost before = busy@.map_values(|b: Busy| busy_view(b));
        let p = &procs[k];
        let traffic = match &p.io {
            Some(content) => read_process_io(content.as_str()),
            None => None,
        };
        if let Some((read, written)) = traffic {
            let total = add_capped(read, written);
            if total > LARGE_TRAFFIC {
                let name = match &p.comm {
                    Some(comm) => trim_end(comm.as_str()),
                    None => trim_end(cat2("pid ", u64_to_string(p.pid as u64).as_str()).as_str()),
                };
                let item = Busy { pid: p.pid, name, read, written };
                keys.push(total);
                busy.push(item);
                assert(busy@.map_values(|b: Busy| busy_view(b)) =~= before.push(busy_view(item)));
                assert(keys@ =~= keys_of(before.push(busy_view(item))));
            }
        }
        k += 1;
    }
    let ghost all = busy@.map_values(|b: Busy| busy_view(b));
    let order = rank_descending(&keys);
    let ghost ranks = order@.map_values(|i: usize| i as int);
    let top: usize = if top_n <= busy.len() {
        top_n
    } else {
        busy.len()
    };
    let mut i: usize = 0;
    assert(report@.findings =~= start.findings + process_findings_upto(all, ranks, 0));
    while i < top
        invariant
            i <= top <= busy.len(),
            order.len() == busy.len(),
            all == busy@.map_values(|b: Busy| busy_view(b)),
            ranks == order@.map_values(|i: usize| i as int),
            forall|j: int| 0 <= j < order.len() ==> (#[trigger] order[j]) < busy.len(),
            start.severity_current() ==> report@.severity_current(),
            report@ == (ReportView {
                findings: start.findings + process_findings_upto(all, ranks, i as int),
                overall_severity: report@.overall_severity,
                ..start
            }),
        decreases top - i,
    {
        assert(ranks[i as int] == order[i as int] as int);
        let b = &busy[order[i]];
        assert(all[order[i as int] as int] == busy_view(*b));
        report.add_finding(
            Finding::new(
                Severity::Info,
                "process",
                cat4(
                    cat4(
                        b.name.as_str(),
                        " (PID ",
                        u64_to_string(b.pid as u64).as_str(),
                        ") – read ",
                    ).as_str(),
                    format_bytes(b.read).as_str(),
                    ", write ",
                    format_bytes(b.written).as_str(),
                ),
                Some("Cumulative I/O since process start.".to_owned()),
            ),
        );
        assert(report@.findings =~= start.findings + process_findings_upto(all, ranks, i + 1));
        i += 1;
    }
}

/// The I/O report for what was read: the traffic of the block devices and
/// the processes that have moved most data.
pub fn report(probe: &IoProbe, config: &ModuleConfig) -> (r: DiagnosticReport)
    ensures
        r@ == io_report(*probe, config@, r@.timestamp),
        r@.severity_current(),
{
    let mut report = DiagnosticReport::new("io", "Disk I/O analysis");
    let filter = config.extra("device");
    add_devices(&mut report, &probe.diskstats, &filter);
    add_busiest(&mut report, &probe.processes, config.top_n);
    assert(report@.metrics =~= all_devices(probe.diskstats, config@.extra("device"@)));
    assert(report@.findings =~= busiest_findings(probe.processes@, config@.top_n));
    if report.findings.len() == 0 && report.metrics.len() == 0 {
        report.summary = "No significant disk I/O detected.".to_owned();
    } else {
        report.add_recommendation(
            Recommendation::new(
                2,
                "Use iotop or 'pidstat -d' for live I/O monitoring.".to_owned(),
                Some("iotop -o -b -n 3".to_owned()),
                "Identify processes causing I/O spikes.",
            ),
        );
    }
    report.compute_overall_severity();
    proof {
        let want = io_report(*probe, config@, report@.timestamp);
        assert(report@.recommendations =~= want.recommendations);
    }
    report
}

impl DiagnosticModule for IoModule {
    open spec fn name_text(&self) -> Seq<char> {
        "io"@
    }

    open spec fn description_text(&self) -> Seq<char> {
        "Explain high disk I/O and identify top readers/writers"@
    }

    open spec fn available(&self) -> bool {
        true
    }

    open spec fn run_allows(
        &self,
        config: ModuleConfigView,
        outcome: Result<ReportView, ExecutionErrorView>,
    ) -> bool {
        outcome matches Ok(r) && r == io_report(self.probe, config, r.timestamp)
    }

    fn name(&self) -> (r: &'static str) {
        "io"
    }

    fn description(&self) -> (r: &'static str) {
        "Explain high disk I/O and identify top readers/writers"
    }

    fn is_available(&self) -> (b: bool) {
        true
    }

    fn run(&self, config: &ModuleConfig) -> (r: Result<DiagnosticReport, ExecutionError>) {
        Ok(report(&self.probe, config))
    }
}

/// The I/O module on what was read from the host.
pub fn module(probe: IoProbe) -> (m: IoModule)
    ensures
        m.probe == probe,
{
    IoModule { probe }
}

} // verus!
