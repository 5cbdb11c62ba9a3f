//! Mount point diagnostics: `/proc/mounts`, read-only and NFS mounts, fstab.

use crate::framework::report::{
    assembled, DiagnosticReport, Finding, FindingView, Metric, MetricValueView, MetricView,
    Recommendation, RecommendationView, ReportView, Timestamp,
};
use crate::framework::severity::Severity;
use crate::framework::traits::{
    DiagnosticModule, ExecutionError, ExecutionErrorView, ModuleConfig, ModuleConfigView,
};
use crate::utils::files::FileRead;
use crate::utils::math::{as_signed, at_most, to_signed};
use crate::utils::split::{lines, lines_of, split_whitespace, texts, words_of};
use crate::utils::text::{
    cat2, cat3, contains_text, starts_with, str_contains, str_eq, str_starts_with, trim, trimmed,
};
use vstd::prelude::*;
use vstd::string::StringSliceAdditionalSpecFns;

verus! {

/// What the mount module reads from the host.
#[derive(Debug, Clone)]
pub struct MountProbe {
    /// What reading `/proc/mounts` gave.
    pub mounts: FileRead,
    /// Content of `/etc/fstab`, `None` where it is missing or unreadable.
    pub fstab: Option<String>,
}

/// The mount module, on what it read.
#[derive(Debug, Clone)]
pub struct MountModule {
    pub probe: MountProbe,
}

/// What a run looks at.
pub ghost struct MountChoice {
    /// Only mount points that hold this text.
    pub filter: Option<Seq<char>>,
    /// NFS mounts are listed.
    pub nfs: bool,
    /// The options of each mount are shown.
    pub options: bool,
}

/// What a run with `config` looks at.
pub open spec fn choice_of(config: ModuleConfigView) -> MountChoice {
    MountChoice {
        filter: config.extra("mountpoint"@),
        nfs: config.flag("nfs"@, false),
        options: config.flag("options"@, false),
    }
}

/// The number of bytes of a text in UTF-8.
pub open spec fn byte_len(s: Seq<char>) -> nat {
    vstd::utf8::encode_utf8(s).len()
}

/// Whether a line of `/proc/mounts` describes a mount that the run looks
/// at: it has device, mount point, type and options, and the mount point
/// holds the filter.
pub open spec fn selected(line: Seq<char>, c: MountChoice) -> bool {
    let parts = words_of(line);
    parts.len() >= 4 && (c.filter is Some ==> contains_text(parts[1], c.filter->0))
}

/// Whether a mount is read-only and neither a tmpfs nor a cgroup.
pub open spec fn is_read_only(line: Seq<char>) -> bool {
    let parts = words_of(line);
    contains_text(parts[3], "ro"@) && !starts_with(parts[0], "tmpfs"@) && !starts_with(
        parts[0],
        "cgroup"@,
    )
}

/// Whether a mount is an NFS mount.
pub open spec fn is_nfs(line: Seq<char>) -> bool {
    words_of(line)[2] == "nfs"@ || words_of(line)[2] == "nfs4"@
}

/// Whether the options of a mount are shown as a metric: its mount point
/// begins with `/` and is at most 50 bytes long.
pub open spec fn is_shown(line: Seq<char>) -> bool {
    starts_with(words_of(line)[1], "/"@) && byte_len(words_of(line)[1]) <= 50
}

/// The number of selected mounts among the first `n` lines.
pub open spec fn count_upto(ls: Seq<Seq<char>>, c: MountChoice, n: int) -> nat
    decreases n,
{
    if n <= 0 {
        0
    } else {
        count_upto(ls, c, n - 1) + if selected(ls[n - 1], c) {
            1nat
        } else {
            0nat
        }
    }
}

/// The read-only mounts among the first `n` lines, as `device on mount point`.
pub open spec fn read_only_upto(ls: Seq<Seq<char>>, c: MountChoice, n: int) -> Seq<Seq<char>>
    decreases n,
{
    if n <= 0 {
        Seq::empty()
    } else if selected(ls[n - 1], c) && is_read_only(ls[n - 1]) {
        read_only_upto(ls, c, n - 1).push(
            words_of(ls[n - 1])[0] + " on "@ + words_of(ls[n - 1])[1],
        )
    } else {
        read_only_upto(ls, c, n - 1)
    }
}

/// The NFS mounts among the first `n` lines, as mount point and options.
pub open spec fn nfs_upto(ls: Seq<Seq<char>>, c: MountChoice, n: int) -> Seq<Seq<char>>
    decreases n,
{
    if n <= 0 {
        Seq::empty()
    } else if c.nfs && selected(ls[n - 1], c) && is_nfs(ls[n - 1]) {
        nfs_upto(ls, c, n - 1).push(words_of(ls[n - 1])[1] + " "@ + words_of(ls[n - 1])[3])
    } else {
        nfs_upto(ls, c, n - 1)
    }
}

/// The metrics that show the options of the mounts among the first `n` lines.
pub open spec fn option_metrics_upto(ls: Seq<Seq<char>>, c: MountChoice, n: int) -> Seq<
    MetricView,
>
    decreases n,
{
    if n <= 0 {
        Seq::empty()
    } else if c.options && selected(ls[n - 1], c) && is_shown(ls[n - 1]) {
        option_metrics_upto(ls, c, n - 1).push(
            MetricView {
                name: words_of(ls[n - 1])[1],
                value: MetricValueView::Text(words_of(ls[n - 1])[3]),
                unit: None,
                threshold: None,
            },
        )
    } else {
        option_metrics_upto(ls, c, n - 1)
    }
}

/// The findings on the first `n` read-only mounts.
pub open spec fn read_only_findings(items: Seq<Seq<char>>, n: int) -> Seq<FindingView>
    decreases n,
{
    if n <= 0 {
        Seq::empty()
    } else {
        read_only_findings(items, n - 1).push(
            FindingView {
                severity: Severity::Info,
                category: "mount"@,
                message: "Read-only: "@ + items[n - 1],
                details: None,
            },
        )
    }
}

/// The findings on the first `n` NFS mounts.
pub open spec fn nfs_findings(items: Seq<Seq<char>>, n: int) -> Seq<FindingView>
    decreases n,
{
    if n <= 0 {
        Seq::empty()
    } else {
        nfs_findings(items, n - 1).push(
            FindingView {
                severity: Severity::Info,
                category: "nfs"@,
                message: items[n - 1],
                details: Some("Check NFS server and network."@),
            },
        )
    }
}

/// Whether a line of fstab is an entry: not blank and no comment.
pub open spec fn is_entry(line: Seq<char>) -> bool {
    trimmed(line).len() > 0 && !starts_with(trimmed(line), "#"@)
}

/// The number of entries among the first `n` lines of fstab.
pub open spec fn entries_upto(ls: Seq<Seq<char>>, n: int) -> nat
    decreases n,
{
    if n <= 0 {
        0
    } else {
        entries_upto(ls, n - 1) + if is_entry(ls[n - 1]) {
            1nat
        } else {
            0nat
        }
    }
}

/// The metric that counts the entries of fstab, where it was read.
pub open spec fn fstab_metrics(fstab: Option<String>) -> Seq<MetricView> {
    match fstab {
        Some(content) => seq![
            MetricView {
                name: "fstab entries"@,
                value: MetricValueView::Integer(
                    as_signed(
                        entries_upto(lines_of(content@), lines_of(content@).len() as int) as u64,
                    ),
                ),
                unit: None,
                threshold: None,
            },
        ],
        None => Seq::empty(),
    }
}

/// The recommendation that every mount report ends with.
pub open spec fn findmnt_recommendation() -> RecommendationView {
    RecommendationView {
        priority: 3,
        action: "Use 'findmnt' and 'mount' for full mount tree."@,
        command: Some("findmnt"@),
        explanation: "Shows hierarchy and options."@,
    }
}

/// The mount report for what was read, generated at `at`.
pub open spec fn mount_report(probe: MountProbe, config: ModuleConfigView, at: Timestamp) -> ReportView {
    match probe.mounts {
        FileRead::Failed(why) => assembled(
            "mount"@,
            "Mount diagnostics"@,
            at,
            seq![
                FindingView {
                    severity: Severity::Critical,
                    category: "mount"@,
                    message: "Cannot read /proc/mounts"@,
                    details: Some(why@),
                },
            ],
            Seq::empty(),
            Seq::empty(),
        ),
        FileRead::Content(content) => {
            let c = choice_of(config);
            let ls = lines_of(content@);
            let n = ls.len() as int;
            let read_only = read_only_upto(ls, c, n);
            let nfs = nfs_upto(ls, c, n);
            let findings = read_only_findings(read_only, at_most(5, read_only.len() as int))
                + nfs_findings(nfs, at_most(5, nfs.len() as int));
            assembled(
                "mount"@,
                if findings.len() == 0 && !c.options {
                    "Mounts look normal."@
                } else {
                    "Mount diagnostics"@
                },
                at,
                findings,
                option_metrics_upto(ls, c, n).push(
                    MetricView {
                        name: "Mount count"@,
                        value: MetricValueView::Integer(as_signed(count_upto(ls, c, n) as u64)),
                        unit: None,
                        threshold: None,
                    },
                ) + fstab_metrics(probe.fstab),
                seq![findmnt_recommendation()],
            )
        },
    }
}

/// The number of entries of fstab.
pub fn fstab_entries(content: &str) -> (r: u64)
    ensures
        r == entries_upto(lines_of(content@), lines_of(content@).len() as int),
{
    let ls = lines(content);
    let mut count: u64 = 0;
    let mut i: usize = 0;
    while i < ls.len()
        invariant
            i <= ls.len(),
            texts(ls@) == lines_of(content@),
            count == entries_upto(texts(ls@), i as int),
            count <= i,
        decreases ls.len() - i,
    {
        assert(texts(ls@)[i as int] == ls[i as int]@);
        let t = trim(ls[i].as_str());
        if t.as_str().unicode_len() > 0 && !str_starts_with(t.as_str(), "#") {
            count += 1;
        }
        i += 1;
    }
    count
}

/// Appends a finding for each of the first five of `items`.
fn add_notes(report: &mut DiagnosticReport, items: &Vec<String>, nfs: bool)
    ensures
        final(report)@ == (ReportView {
            findings: old(report)@.findings + if nfs {
                nfs_findings(texts(items@), at_most(5, items.len() as int))
            } else {
                read_only_findings(texts(items@), at_most(5, items.len() as int))
            },
            overall_severity: final(report)@.overall_severity,
            ..old(report)@
        }),
        old(report)@.severity_current() ==> final(report)@.severity_current(),
{
    let ghost start = report@;
    let top: usize = if 5 <= items.len() {
        5
    } else {
        items.len()
    };
    let mut i: usize = 0;
    assert(report@.findings =~= start.findings + nfs_findings(texts(items@), 0));
    assert(report@.findings =~= start.findings + read_only_findings(texts(items@), 0));
    while i < top
        invariant
            i <= top <= items.len(),
            start.severity_current() ==> report@.severity_current(),
            report@ == (ReportView {
                findings: start.findings + if nfs {
                    nfs_findings(texts(items@), i as int)
                } else {
                    read_only_findings(texts(items@), i as int)
                },
                overall_severity: report@.overall_severity,
                ..start
            }),
        decreases top - i,
    {
        assert(texts(items@)[i as int] == items[i as int]@);
        if nfs {
            report.add_finding(
                Finding::new(
                    Severity::Info,
                    "nfs",
                    items[i].clone(),
                    Some("Check NFS server and network.".to_owned()),
                ),
            );
            assert(report@.findings =~= start.findings + nfs_findings(texts(items@), i + 1));
        } else {
            report.add_finding(
                Finding::new(
                    Severity::Info,
                    "mount",
                    cat2("Read-only: ", items[i].as_str()),
                    None,
                ),
            );
            assert(report@.findings =~= start.findings + read_only_findings(
                texts(items@),
                i + 1,
            ));
        }
        i += 1;
    }
}

/// The mount report for what was read: a `Critical` finding where
/// `/proc/mounts` could not be read, else the number of mounts, the first
/// read-only and NFS mounts, and the number of fstab entries.
pub fn report(probe: &MountProbe, config: &ModuleConfig) -> (r: DiagnosticReport)
    ensures
        r@ == mount_report(*probe, config@, r@.timestamp),
        r@.severity_current(),
{
    let mut report = DiagnosticReport::new("mount", "Mount diagnostics");
    let filter = config.extra("mountpoint");
    let check_nfs = config.flag("nfs", false);
    let show_options = config.flag("options", false);
    let content = match &probe.mounts {
        FileRead::Content(content) => content,
        FileRead::Failed(why) => {
            report.add_finding(
                Finding::new(
                    Severity::Critical,
                    "mount",
                    "Cannot read /proc/mounts".to_owned(),
                    Some(why.clone()),
                ),
            );
            assert(report@.findings =~= mount_report(*probe, config@, report@.timestamp).findings);
            return report;
        },
    };
    let ghost c = choice_of(config@);
    let ls = lines(content.as_str());
    let mut count: u64 = 0;
    let mut read_only: Vec<String> = Vec::new();
    let mut nfs: Vec<String> = Vec::new();
    let mut i: usize = 0;
    assert(texts(read_only@) =~= Seq::<Seq<char>>::empty());
    assert(texts(nfs@) =~= Seq::<Seq<char>>::empty());
    assert(report@.metrics =~= option_metrics_upto(texts(ls@), c, 0));
    while i < ls.len()
        invariant
            i <= ls.len(),
            texts(ls@) == lines_of(content@),
            c == choice_of(config@),
            crate::framework::report::opt_text(filter) == c.filter,
            check_nfs == c.nfs,
            show_options == c.options,
            count == count_upto(texts(ls@), c, i as int),
            count <= i,
            texts(read_only@) == read_only_upto(texts(ls@), c, i as int),
            texts(nfs@) == nfs_upto(texts(ls@), c, i as int),
            report@ == assembled(
                "mount"@,
                "Mount diagnostics"@,
                report@.timestamp,
                Seq::empty(),
                option_metrics_upto(texts(ls@), c, i as int),
                Seq::empty(),
            ),
        decreases ls.len() - i,
    {
        assert(texts(ls@)[i as int] == ls[i as int]@);
        let parts = split_whitespace(ls[i].as_str());
        let mut chosen = parts.len() >= 4;
        if chosen {
            assert(texts(parts@)[0] == parts[0]@);
            assert(texts(parts@)[1] == parts[1]@);
            assert(texts(parts@)[2] == parts[2]@);
            assert(texts(parts@)[3] == parts[3]@);
            if let Some(wanted) = &filter {
                if !str_contains(parts[1].as_str(), wanted.as_str()) {
                    chosen = false;
                }
            }
        }
        assert(chosen == selected(ls[i as int]@, c));
        if chosen {
            let device = parts[0].as_str();
            let mountpoint = parts[1].as_str();
            let fstype = parts[2].as_str();
            let options = parts[3].as_str();
            count += 1;
            if str_contains(options, "ro") && !str_starts_with(device, "tmpfs")
                && !str_starts_with(device, "cgroup") {
                let ghost before = texts(read_only@);
                let note = cat3(device, " on ", mountpoint);
                read_only.push(note);
                assert(texts(read_only@) =~= before.push(note@));
            }
            if check_nfs && (str_eq(fstype, "nfs") || str_eq(fstype, "nfs4")) {
                let ghost before = texts(nfs@);
                let note = cat3(mountpoint, " ", options);
                nfs.push(note);
                assert(texts(nfs@) =~= before.push(note@));
            }
            if show_options && str_starts_with(mountpoint, "/") && mountpoint.as_bytes().len()
                <= 50 {
                report.add_metric(Metric::text(mountpoint.to_owned(), options.to_owned()));
            }
        }
        assert(report@.metrics =~= option_metrics_upto(texts(ls@), c, i + 1));
        i += 1;
    }
    report.add_metric(Metric::integer("Mount count".to_owned(), to_signed(count), None));
    add_notes(&mut report, &read_only, false);
    add_notes(&mut report, &nfs, true);
    if let Some(fstab) = &probe.fstab {
        report.add_metric(
            Metric::integer(
                "fstab entries".to_owned(),
                to_signed(fstab_entries(fstab.as_str())),
                None,
            ),
        );
    }
    if report.findings.len() == 0 && !show_options {
        report.summary = "Mounts look normal.".to_owned();
    }
    report.add_recommendation(
        Recommendation::new(
            3,
            "Use 'findmnt' and 'mount' for full mount tree.".to_owned(),
            Some("findmnt".to_owned()),
            "Shows hierarchy and options.",
        ),
    );
    report.compute_overall_severity();
    proof {
        let want = mount_report(*probe, config@, report@.timestamp);
        assert(report@.findings =~= want.findings);
        assert(report@.metrics =~= want.metrics);
        assert(report@.recommendations =~= want.recommendations);
    }
    report
}

impl DiagnosticModule for MountModule {
    open spec fn name_text(&self) -> Seq<char> {
        "mount"@
    }

    open spec fn description_text(&self) -> Seq<char> {
        "Diagnose mount point issues and filesystem checks"@
    }

    open spec fn available(&self) -> bool {
        true
    }

    open spec fn run_allows(
        &self,
        config: ModuleConfigView,
        outcome: Result<ReportView, ExecutionErrorView>,
    ) -> bool {
        outcome matches Ok(r) && r == mount_report(self.probe, config, r.timestamp)
    }

    fn name(&self) -> (r: &'static str) {
        "mount"
    }

    fn description(&self) -> (r: &'static str) {
        "Diagnose mount point issues and filesystem checks"
    }

    fn is_available(&self) -> (b: bool) {
        true
    }

    fn run(&self, config: &ModuleConfig) -> (r: Result<DiagnosticReport, ExecutionError>) {
        Ok(report(&self.probe, config))
    }
}

/// The mount module on what was read from the host.
pub fn module(probe: MountProbe) -> (m: MountModule)
    ensures
        m.probe == probe,
{
    MountModule { probe }
}

} // verus!
