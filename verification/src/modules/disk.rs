//! Disk space analysis: sizes of directories, large files.

use crate::framework::report::{
    assembled, DiagnosticReport, Finding, FindingView, Metric, MetricValueView, MetricView,
    Recommendation, RecommendationView, ReportView, Timestamp,
};
use crate::framework::severity::Severity;
use crate::framework::traits::{
    DiagnosticModule, ExecutionError, ExecutionErrorView, ModuleConfig, ModuleConfigView,
};
use crate::utils::math::{add_capped, at_most, plus_capped};
use crate::utils::format::{byte_size_text, format_bytes};
use crate::utils::parse::{human_size_of, parse_size_human, parse_unsigned, unsigned_up_to};
use crate::utils::ranking::{rank_descending, ranking};
use crate::utils::text::{cat2, cat3, chars_of, str_eq};
use vstd::prelude::*;

verus! {

/// A file that the walk of the directory tree came across.
#[derive(Debug, Clone)]
pub struct FileSeen {
    pub path: String,
    /// The directory that holds the file, `None` where the path has no parent.
    pub parent: Option<String>,
    /// Size in bytes.
    pub size: u64,
}

/// What the disk module reads from the host.
#[derive(Debug, Clone)]
pub struct DiskProbe {
    /// The path to analyze exists.
    pub path_exists: bool,
    /// The files below the path, in the order of the walk.
    pub files: Vec<FileSeen>,
}

/// The disk module, on what it read.
#[derive(Debug, Clone)]
pub struct DiskModule {
    pub probe: DiskProbe,
}

/// A name with the size that belongs to it.
pub type NamedSize = (Seq<char>, u64);

/// The path that a run analyzes: the option `path`, or `/`.
pub open spec fn path_of(config: ModuleConfigView) -> Seq<char> {
    match config.extra("path"@) {
        Some(path) => path,
        None => "/"@,
    }
}

/// The depth that a run asks for: the option `depth` where it is a number, else 3.
pub open spec fn depth_of(config: ModuleConfigView) -> usize {
    match config.extra("depth"@) {
        Some(text) => match unsigned_up_to(text, usize::MAX as nat) {
            Some(n) => n as usize,
            None => 3,
        },
        None => 3,
    }
}

/// The size from which a file counts as large, where the option `large` states one.
pub open spec fn large_from(config: ModuleConfigView) -> Option<u64> {
    match config.extra("large"@) {
        Some(text) => human_size_of(text),
        None => None,
    }
}

/// The sum of the sizes of the first `n` files, at most the largest `u64`.
pub open spec fn total_upto(files: Seq<FileSeen>, n: int) -> u64
    decreases n,
{
    if n <= 0 {
        0
    } else {
        plus_capped(total_upto(files, n - 1), files[n - 1].size)
    }
}

/// Those of the first `n` files that are at least `min` bytes large.
pub open spec fn large_upto(files: Seq<FileSeen>, min: Option<u64>, n: int) -> Seq<NamedSize>
    decreases n,
{
    if n <= 0 {
        Seq::empty()
    } else if min is Some && files[n - 1].size >= min->0 {
        large_upto(files, min, n - 1).push((files[n - 1].path@, files[n - 1].size))
    } else {
        large_upto(files, min, n - 1)
    }
}

/// The first index at or after `from` whose name is `name`, or the length.
pub open spec fn place_of(totals: Seq<NamedSize>, name: Seq<char>, from: int) -> int
    decreases totals.len() - from,
{
    if 0 <= from < totals.len() && totals[from].0 != name {
        place_of(totals, name, from + 1)
    } else {
        from
    }
}

/// The totals after `size` is added to the total of `name`: to its entry
/// where it has one, else to a new entry at the end.
pub open spec fn credited(totals: Seq<NamedSize>, name: Seq<char>, size: u64) -> Seq<NamedSize> {
    let at = place_of(totals, name, 0);
    if 0 <= at < totals.len() {
        totals.update(at, (name, plus_capped(totals[at].1, size)))
    } else {
        totals.push((name, size))
    }
}

/// The total size of the files in each directory among the first `n`
/// files, directories in the order in which the walk came to them.
pub open spec fn directories_upto(files: Seq<FileSeen>, n: int) -> Seq<NamedSize>
    decreases n,
{
    if n <= 0 {
        Seq::empty()
    } else {
        match files[n - 1].parent {
            Some(dir) => credited(directories_upto(files, n - 1), dir@, files[n - 1].size),
            None => directories_upto(files, n - 1),
        }
    }
}

/// The sizes of the items, in order.
pub open spec fn sizes_in(items: Seq<NamedSize>) -> Seq<u64> {
    items.map_values(|e: NamedSize| e.1)
}

/// The finding on a large file.
pub open spec fn file_finding(item: NamedSize) -> FindingView {
    FindingView {
        severity: Severity::Info,
        category: "file"@,
        message: item.0 + " – "@ + byte_size_text(item.1),
        details: Some("Consider moving or compressing."@),
    }
}

/// The finding on a directory that holds much.
pub open spec fn directory_finding(item: NamedSize) -> FindingView {
    FindingView {
        severity: Severity::Info,
        category: "directory"@,
        message: item.0 + " uses "@ + byte_size_text(item.1),
        details: None,
    }
}

/// The size above which a directory is reported: 100 MiB.
pub const LARGE_DIRECTORY: u64 = 104_857_600;

/// The total above which a cleanup is recommended: 50 GiB.
pub const LARGE_TOTAL: u64 = 53_687_091_200;

/// The findings on the first `n` files of a ranking.
pub open spec fn file_findings_upto(items: Seq<NamedSize>, order: Seq<int>, n: int) -> Seq<
    FindingView,
>
    decreases n,
{
    if n <= 0 {
        Seq::empty()
    } else {
        file_findings_upto(items, order, n - 1).push(file_finding(items[order[n - 1]]))
    }
}

/// The findings on those of the first `n` directories of a ranking that
/// hold more than 100 MiB.
pub open spec fn directory_findings_upto(items: Seq<NamedSize>, order: Seq<int>, n: int) -> Seq<
    FindingView,
>
    decreases n,
{
    if n <= 0 {
        Seq::empty()
    } else if items[order[n - 1]].1 > LARGE_DIRECTORY {
        directory_findings_upto(items, order, n - 1).push(directory_finding(items[order[n - 1]]))
    } else {
        directory_findings_upto(items, order, n - 1)
    }
}

/// The findings on the `top_n` largest of the large files.
pub open spec fn top_files(items: Seq<NamedSize>, top_n: usize) -> Seq<FindingView> {
    file_findings_upto(
        items,
        ranking(sizes_in(items), items.len() as int),
        at_most(top_n as int, items.len() as int),
    )
}

/// The findings on the ten largest directories.
pub open spec fn top_directories(items: Seq<NamedSize>) -> Seq<FindingView> {
    directory_findings_upto(
        items,
        ranking(sizes_in(items), items.len() as int),
        at_most(10, items.len() as int),
    )
}

/// The directories that a report looks at: none where the depth is 0.
pub open spec fn directories_of(probe: DiskProbe, config: ModuleConfigView) -> Seq<NamedSize> {
    if depth_of(config) >= 1 {
        directories_upto(probe.files@, probe.files.len() as int)
    } else {
        Seq::empty()
    }
}

/// The disk report for what was read, generated at `at`.
pub open spec fn disk_report(probe: DiskProbe, config: ModuleConfigView, at: Timestamp) -> ReportView {
    let path = path_of(config);
    if !probe.path_exists {
        assembled(
            "disk"@,
            "Disk space analysis"@,
            at,
            seq![
                FindingView {
                    severity: Severity::Critical,
                    category: "disk"@,
                    message: "Path does not exist: "@ + path,
                    details: None,
                },
            ],
            Seq::empty(),
            Seq::empty(),
        )
    } else {
        let n = probe.files.len() as int;
        let total = total_upto(probe.files@, n);
        assembled(
            "disk"@,
            "Disk space analysis"@,
            at,
            top_files(large_upto(probe.files@, large_from(config), n), config.top_n)
                + top_directories(directories_of(probe, config)),
            seq![
                MetricView {
                    name: "Path analyzed"@,
                    value: MetricValueView::Text(path),
                    unit: None,
                    threshold: None,
                },
                MetricView {
                    name: "Total size (sampled)"@,
                    value: MetricValueView::Text(byte_size_text(total)),
                    unit: None,
                    threshold: None,
                },
            ],
            if total > LARGE_TOTAL {
                seq![
                    RecommendationView {
                        priority: 2,
                        action: "Review large directories (e.g. /var/log, caches) and clean old data."@,
                        command: Some("du -sh /var/log/* 2>/dev/null | sort -hr | head -10"@),
                        explanation: "Logs and caches often consume significant space."@,
                    },
                ]
            } else {
                Seq::empty()
            },
        )
    }
}

/// The texts and sizes of a list of named sizes.
pub open spec fn pairs(v: Seq<(String, u64)>) -> Seq<NamedSize> {
    v.map_values(|e: (String, u64)| (e.0@, e.1))
}

/// The path that a run analyzes.
pub fn target_path(config: &ModuleConfig) -> (r: String)
    ensures
        r@ == path_of(config@),
{
    match config.extra("path") {
        Some(path) => path,
        None => "/".to_owned(),
    }
}

/// The depth that a run asks for.
pub fn wanted_depth(config: &ModuleConfig) -> (r: usize)
    ensures
        r == depth_of(config@),
{
    match config.extra("depth") {
        Some(text) => {
            let chars = chars_of(text.as_str());
            match parse_unsigned(chars.as_slice(), usize::MAX as u64) {
                Some(n) => n as usize,
                None => 3,
            }
        },
        None => 3,
    }
}

/// The depth to which the tree is walked: the depth asked for, at most 5.
pub fn walk_depth(config: &ModuleConfig) -> (r: usize)
    ensures
        r == at_most(depth_of(config@) as int, 5),
{
    let depth = wanted_depth(config);
    if depth <= 5 {
        depth
    } else {
        5
    }
}

/// The size from which a file counts as large.
pub fn large_threshold(config: &ModuleConfig) -> (r: Option<u64>)
    ensures
        r == large_from(config@),
{
    match config.extra("large") {
        Some(text) => parse_size_human(text.as_str()),
        None => None,
    }
}

/// Adds `size` to the total of the directory `name`.
fn credit(totals: &mut Vec<(String, u64)>, name: &str, size: u64)
    ensures
        pairs(final(totals)@) == credited(pairs(old(totals)@), name@, size),
{
    let ghost before = pairs(totals@);
    let mut at: usize = 0;
    while at < totals.len() && !str_eq(totals[at].0.as_str(), name)
        invariant
            at <= totals.len(),
            before == pairs(totals@),
            place_of(before, name@, 0) == place_of(before, name@, at as int),
        decreases totals.len() - at,
    {
        assert(before[at as int].0 == totals[at as int].0@);
        at += 1;
    }
    if at < totals.len() {
        assert(before[at as int] == (totals[at as int].0@, totals[at as int].1));
        let sum = add_capped(totals[at].1, size);
        totals.set(at, (name.to_owned(), sum));
        assert(pairs(totals@) =~= before.update(at as int, (name@, sum)));
    } else {
        totals.push((name.to_owned(), size));
        assert(pairs(totals@) =~= before.push((name@, size)));
    }
}

/// The sizes of a list of named sizes.
fn sizes_listed(items: &Vec<(String, u64)>) -> (keys: Vec<u64>)
    ensures
        keys@ == sizes_in(pairs(items@)),
{
    let mut keys: Vec<u64> = Vec::new();
    let mut k: usize = 0;
    while k < items.len()
        invariant
            k <= items.len(),
            keys@ == sizes_in(pairs(items@)).take(k as int),
        decreases items.len() - k,
    {
        keys.push(items[k].1);
        assert(keys@ =~= sizes_in(pairs(items@)).take(k + 1));
        k += 1;
    }
    assert(sizes_in(pairs(items@)).take(items.len() as int) =~= sizes_in(pairs(items@)));
    keys
}

/// Appends the findings on the `top_n` largest of the large files.
fn add_top_files(report: &mut DiagnosticReport, items: &Vec<(String, u64)>, top_n: usize)
    ensures
        final(report)@ == (ReportView {
            findings: old(report)@.findings + top_files(pairs(items@), top_n),
            overall_severity: final(report)@.overall_severity,
            ..old(report)@
        }),
        old(report)@.severity_current() ==> final(report)@.severity_current(),
{
    let ghost start = report@;
    let keys = sizes_listed(items);
    let order = rank_descending(&keys);
    let ghost ranks = order@.map_values(|i: usize| i as int);
    let top: usize = if top_n <= items.len() {
        top_n
    } else {
        items.len()
    };
    let mut i: usize = 0;
    assert(report@.findings =~= start.findings + file_findings_upto(pairs(items@), ranks, 0));
    while i < top
        invariant
            i <= top <= items.len(),
            order.len() == items.len(),
            ranks == order@.map_values(|i: usize| i as int),
            forall|j: int| 0 <= j < order.len() ==> (#[trigger] order[j]) < items.len(),
            start.severity_current() ==> report@.severity_current(),
            report@ == (ReportView {
                findings: start.findings + file_findings_upto(pairs(items@), ranks, i as int),
                overall_severity: report@.overall_severity,
                ..start
            }),
        decreases top - i,
    {
        assert(ranks[i as int] == order[i as int] as int);
        let item = &items[order[i]];
        assert(pairs(items@)[order[i as int] as int] == (item.0@, item.1));
        report.add_finding(
            Finding::new(
                Severity::Info,
                "file",
                cat3(item.0.as_str(), " – ", format_bytes(item.1).as_str()),
                Some("Consider moving or compressing.".to_owned()),
            ),
        );
        assert(report@.findings =~= start.findings + file_findings_upto(
            pairs(items@),
            ranks,
            i + 1,
        ));
        i += 1;
    }
}

/// Appends the findings on the ten largest directories.
fn add_top_directories(report: &mut DiagnosticReport, items: &Vec<(String, u64)>)
    ensures
        final(report)@ == (ReportView {
            findings: old(report)@.findings + top_directories(pairs(items@)),
            overall_severity: final(report)@.overall_severity,
            ..old(report)@
        }),
        old(report)@.severity_current() ==> final(report)@.severity_current(),
{
    let ghost start = report@;
    let keys = sizes_listed(items);
    let order = rank_descending(&keys);
    let ghost ranks = order@.map_values(|i: usize| i as int);
    let top: usize = if 10 <= items.len() {
        10
    } else {
        items.len()
    };
    let mut i: usize = 0;
    assert(report@.findings =~= start.findings + directory_findings_upto(pairs(items@), ranks, 0));
    while i < top
        invariant
            i <= top <= items.len(),
            order.len() == items.len(),
            ranks == order@.map_values(|i: usize| i as int),
            forall|j: int| 0 <= j < order.len() ==> (#[trigger] order[j]) < items.len(),
            start.severity_current() ==> report@.severity_current(),
            report@ == (ReportView {
                findings: start.findings + directory_findings_upto(
                    pairs(items@),
                    ranks,
                    i as int,
                ),
                overall_severity: report@.overall_severity,
                ..start
            }),
        decreases top - i,
    {
        assert(ranks[i as int] == order[i as int] as int);
        let item = &items[order[i]];
        assert(pairs(items@)[order[i as int] as int] == (item.0@, item.1));
        if item.1 > LARGE_DIRECTORY {
            report.add_finding(
                Finding::new(
                    Severity::Info,
                    "directory",
                    cat3(item.0.as_str(), " uses ", format_bytes(item.1).as_str()),
                    None,
                ),
            );
        }
        assert(report@.findings =~= start.findings + directory_findings_upto(
            pairs(items@),
            ranks,
            i + 1,
        ));
        i += 1;
    }
}

/// The disk report for what was read: a `Critical` finding where the path
/// does not exist, else the total size of the files, the largest of the
/// large files and the directories that hold most.
pub fn report(probe: &DiskProbe, config: &ModuleConfig) -> (r: DiagnosticReport)
    ensures
        r@ == disk_report(*probe, config@, r@.timestamp),
        r@.severity_current(),
{
    let path = target_path(config);
    let depth = wanted_depth(config);
    let min_size = large_threshold(config);
    let mut report = DiagnosticReport::new("disk", "Disk space analysis");
    if !probe.path_exists {
        report.add_finding(
            Finding::new(
                Severity::Critical,
                "disk",
                cat2("Path does not exist: ", path.as_str()),
                None,
            ),
        );
        assert(report@.findings =~= disk_report(*probe, config@, report@.timestamp).findings);
        return report;
    }
    let mut directories: Vec<(String, u64)> = Vec::new();
    let mut large: Vec<(String, u64)> = Vec::new();
    let mut total: u64 = 0;
    let mut i: usize = 0;
    assert(pairs(directories@) =~= Seq::<NamedSize>::empty());
    assert(pairs(large@) =~= Seq::<NamedSize>::empty());
    while i < probe.files.len()
        invariant
            i <= probe.files.len(),
            total == total_upto(probe.files@, i as int),
            pairs(large@) == large_upto(probe.files@, min_size, i as int),
            pairs(directories@) == if depth >= 1 {
                directories_upto(probe.files@, i as int)
            } else {
                Seq::empty()
            },
        decreases probe.files.len() - i,
    {
        let f = &probe.files[i];
        total = add_capped(total, f.size);
        if let Some(min) = min_size {
            if f.size >= min {
                let ghost before = pairs(large@);
                large.push((f.path.clone(), f.size));
                assert(pairs(large@) =~= before.push((f.path@, f.size)));
            }
        }
        if depth >= 1 {
            if let Some(dir) = &f.parent {
                credit(&mut directories, dir.as_str(), f.size);
            }
        }
        i += 1;
    }
    report.add_metric(Metric::text("Path analyzed".to_owned(), path));
    report.add_metric(Metric::text("Total size (sampled)".to_owned(), format_bytes(total)));
    assert(report@.metrics =~= disk_report(*probe, config@, report@.timestamp).metrics);
    assert(report@.findings =~= Seq::<FindingView>::empty());
    add_top_files(&mut report, &large, config.top_n);
    add_top_directories(&mut report, &directories);
    if total > LARGE_TOTAL {
        report.add_recommendation(
            Recommendation::new(
                2,
                "Review large directories (e.g. /var/log, caches) and clean old data.".to_owned(),
                Some("du -sh /var/log/* 2>/dev/null | sort -hr | head -10".to_owned()),
                "Logs and caches often consume significant space.",
            ),
        );
    }
    report.compute_overall_severity();
    proof {
        assert(report@.findings =~= disk_report(*probe, config@, report@.timestamp).findings);
        assert(report@.recommendations =~= disk_report(
            *probe,
            config@,
            report@.timestamp,
        ).recommendations);
    }
    report
}

impl DiagnosticModule for DiskModule {
    open spec fn name_text(&self) -> Seq<char> {
        "disk"@
    }

    open spec fn description_text(&self) -> Seq<char> {
        "Analyze disk space usage and find large or old files"@
    }

    open spec fn available(&self) -> bool {
        true
    }

    open spec fn run_allows(
        &self,
        config: ModuleConfigView,
        outcome: Result<ReportView, ExecutionErrorView>,
    ) -> bool {
        outcome matches Ok(r) && r == disk_report(self.probe, config, r.timestamp)
    }

    fn name(&self) -> (r: &'static str) {
        "disk"
    }

    fn description(&self) -> (r: &'static str) {
        "Analyze disk space usage and find large or old files"
    }

    fn is_available(&self) -> (b: bool) {
        true
    }

    fn run(&self, config: &ModuleConfig) -> (r: Result<DiagnosticReport, ExecutionError>) {
        Ok(report(&self.probe, config))
    }
}

/// The disk module on what was read from the host.
pub fn module(probe: DiskProbe) -> (m: DiskModule)
    ensures
        m.probe == probe,
{
    DiskModule { probe }
}

} // verus!
