//! USB device diagnostics: enumeration and kernel messages.

use crate::framework::report::{
    assembled, opt_text, DiagnosticReport, Finding, FindingView, Metric, MetricValueView,
    MetricView, Recommendation, RecommendationView, ReportView, Timestamp,
};
use crate::framework::severity::Severity;
use crate::framework::traits::{
    DiagnosticModule, ExecutionError, ExecutionErrorView, ModuleConfig, ModuleConfigView,
};
use crate::utils::math::{as_signed, at_most, to_signed};
use crate::utils::split::{lines, lines_of, nonblank, nonblank_lines, nonblank_upto, texts};
use crate::utils::text::{
    char_is_digit, chars_of, contains_text, is_digit, lowercase_of, str_contains, to_lowercase,
    trim, trimmed,
};
use vstd::prelude::*;

verus! {

/// What the USB module reads from the host.
#[derive(Debug, Clone)]
pub struct UsbProbe {
    /// `lsusb` is installed.
    pub lsusb_found: bool,
    /// What `lsusb` printed, `None` where it is not installed or failed.
    pub lsusb: Option<String>,
    /// The names of the entries of `/sys/bus/usb/devices`, `None` where the
    /// directory does not exist.
    pub sysfs_devices: Option<Vec<String>>,
    /// What `dmesg -T` printed, `None` where it is not installed or failed.
    pub dmesg: Option<String>,
}

/// The USB module, on what it read.
#[derive(Debug, Clone)]
pub struct UsbModule {
    pub probe: UsbProbe,
}

/// Whether a device line passes the filter: it holds the filter's text, in
/// any letter case.
pub open spec fn passes(line: Seq<char>, filter: Option<Seq<char>>) -> bool {
    filter is Some ==> contains_text(lowercase_of(trimmed(line)), lowercase_of(filter->0))
}

/// The findings on those of the first `n` device lines that pass the filter.
pub open spec fn device_findings_upto(ls: Seq<Seq<char>>, filter: Option<Seq<char>>, n: int) -> Seq<
    FindingView,
>
    decreases n,
{
    if n <= 0 {
        Seq::empty()
    } else if passes(ls[n - 1], filter) {
        device_findings_upto(ls, filter, n - 1).push(
            FindingView {
                severity: Severity::Info,
                category: "usb"@,
                message: trimmed(ls[n - 1]),
                details: None,
            },
        )
    } else {
        device_findings_upto(ls, filter, n - 1)
    }
}

/// Whether a kernel message reports a USB problem: it names `usb` and one
/// of `error`, `reset` and `fail`, in any letter case.
pub open spec fn is_usb_problem(line: Seq<char>) -> bool {
    let lower = lowercase_of(line);
    contains_text(lower, "usb"@) && (contains_text(lower, "error"@) || contains_text(
        lower,
        "reset"@,
    ) || contains_text(lower, "fail"@))
}

/// Those of the first `n` kernel messages that report a USB problem.
pub open spec fn problems_upto(ls: Seq<Seq<char>>, n: int) -> Seq<Seq<char>>
    decreases n,
{
    if n <= 0 {
        Seq::empty()
    } else if is_usb_problem(ls[n - 1]) {
        problems_upto(ls, n - 1).push(ls[n - 1])
    } else {
        problems_upto(ls, n - 1)
    }
}

/// The warnings on the first `n` of the problems.
pub open spec fn problem_findings(items: Seq<Seq<char>>, n: int) -> Seq<FindingView>
    decreases n,
{
    if n <= 0 {
        Seq::empty()
    } else {
        problem_findings(items, n - 1).push(
            FindingView {
                severity: Severity::Warning,
                category: "dmesg"@,
                message: trimmed(items[n - 1]),
                details: None,
            },
        )
    }
}

/// The number of the first `n` names that begin with a digit.
pub open spec fn numbered_upto(names: Seq<String>, n: int) -> nat
    decreases n,
{
    if n <= 0 {
        0
    } else {
        numbered_upto(names, n - 1) + if names[n - 1]@.len() > 0 && is_digit(names[n - 1]@[0]) {
            1nat
        } else {
            0nat
        }
    }
}

/// A metric that holds a count.
pub open spec fn count_metric(name: Seq<char>, n: nat) -> MetricView {
    MetricView {
        name,
        value: MetricValueView::Integer(as_signed(n as u64)),
        unit: None,
        threshold: None,
    }
}

/// The metric that counts the devices: those that `lsusb` lists where it is
/// installed and ran, else those that sysfs lists where `lsusb` is missing.
pub open spec fn usb_metrics(probe: UsbProbe) -> Seq<MetricView> {
    if probe.lsusb_found {
        match probe.lsusb {
            Some(out) => seq![count_metric("USB devices (lsusb)"@, nonblank(out@).len())],
            None => Seq::empty(),
        }
    } else {
        match probe.sysfs_devices {
            Some(names) => seq![
                count_metric("USB devices (sysfs)"@, numbered_upto(names@, names.len() as int)),
            ],
            None => Seq::empty(),
        }
    }
}

/// The findings on the first 15 devices that `lsusb` lists.
pub open spec fn listed_findings(probe: UsbProbe, filter: Option<Seq<char>>) -> Seq<FindingView> {
    if probe.lsusb_found && probe.lsusb is Some {
        let ls = nonblank(probe.lsusb->0@);
        device_findings_upto(ls, filter, at_most(15, ls.len() as int))
    } else {
        Seq::empty()
    }
}

/// The warnings on the first 10 USB problems among the kernel messages,
/// where the option `dmesg` asks for them.
pub open spec fn kernel_findings(probe: UsbProbe, config: ModuleConfigView) -> Seq<FindingView> {
    if config.flag("dmesg"@, false) && probe.dmesg is Some {
        let ls = lines_of(probe.dmesg->0@);
        let problems = problems_upto(ls, ls.len() as int);
        problem_findings(problems, at_most(10, problems.len() as int))
    } else {
        Seq::empty()
    }
}

/// The finding that explains a host without USB data.
pub open spec fn no_data_finding() -> FindingView {
    FindingView {
        severity: Severity::Info,
        category: "usb"@,
        message: "No USB devices or lsusb/sysfs data available."@,
        details: None,
    }
}

/// The recommendation that every USB report ends with.
pub open spec fn tree_recommendation() -> RecommendationView {
    RecommendationView {
        priority: 3,
        action: "Use 'lsusb -t' for tree view; 'dmesg | grep -i usb' for kernel messages."@,
        command: Some("lsusb -t"@),
        explanation: "Helps identify enumeration or power issues."@,
    }
}

/// The USB report for what was read, generated at `at`.
pub open spec fn usb_report(probe: UsbProbe, config: ModuleConfigView, at: Timestamp) -> ReportView {
    let metrics = usb_metrics(probe);
    let found = listed_findings(probe, config.extra("device"@)) + kernel_findings(probe, config);
    assembled(
        "usb"@,
        "USB diagnostics"@,
        at,
        if found.len() == 0 && metrics.len() == 0 {
            found.push(no_data_finding())
        } else {
            found
        },
        metrics,
        seq![tree_recommendation()],
    )
}

/// The kernel messages that report a USB problem.
pub fn usb_problems(content: &str) -> (r: Vec<String>)
    ensures
        texts(r@) == problems_upto(lines_of(content@), lines_of(content@).len() as int),
{
    let ls = lines(content);
    let mut out: Vec<String> = Vec::new();
    let mut i: usize = 0;
    assert(texts(out@) =~= Seq::<Seq<char>>::empty());
    while i < ls.len()
        invariant
            i <= ls.len(),
            texts(ls@) == lines_of(content@),
            texts(out@) == problems_upto(texts(ls@), i as int),
        decreases ls.len() - i,
    {
        assert(texts(ls@)[i as int] == ls[i as int]@);
        let lower = to_lowercase(ls[i].as_str());
        if str_contains(lower.as_str(), "usb") && (str_contains(lower.as_str(), "error")
            || str_contains(lower.as_str(), "reset") || str_contains(lower.as_str(), "fail")) {
            let ghost before = texts(out@);
            out.push(ls[i].clone());
            assert(texts(out@) =~= before.push(ls[i as int]@));
        }
        i += 1;
    }
    out
}

/// The number of names that begin with a digit.
pub fn count_numbered(names: &Vec<String>) -> (r: u64)
    ensures
        r == numbered_upto(names@, names.len() as int),
{
    let mut count: u64 = 0;
    let mut i: usize = 0;
    while i < names.len()
        invariant
            i <= names.len(),
            count == numbered_upto(names@, i as int),
            count <= i,
        decreases names.len() - i,
    {
        let chars = chars_of(names[i].as_str());
        if chars.len() > 0 && char_is_digit(chars[0]) {
            count += 1;
        }
        i += 1;
    }
    count
}

/// Appends the findings on the first 15 listed devices that pass the filter.
fn add_listed(report: &mut DiagnosticReport, listed: &Vec<String>, filter: &Option<String>)
    ensures
        final(report)@ == (ReportView {
            findings: old(report)@.findings + device_findings_upto(
                texts(listed@),
                opt_text(*filter),
                at_most(15, listed.len() as int),
            ),
            overall_severity: final(report)@.overall_severity,
            ..old(report)@
        }),
        old(report)@.severity_current() ==> final(report)@.severity_current(),
{
    let ghost start = report@;
    let top: usize = if 15 <= listed.len() {
        15
    } else {
        listed.len()
    };
    let lowered: Option<String> = match filter {
        Some(f) => Some(to_lowercase(f.as_str())),
        None => None,
    };
    let mut i: usize = 0;
    assert(report@.findings =~= start.findings + device_findings_upto(
        texts(listed@),
        opt_text(*filter),
        0,
    ));
    while i < top
        invariant
            i <= top <= listed.len(),
            filter is Some == lowered is Some,
            filter is Some ==> lowered->0@ == lowercase_of(filter->0@),
            start.severity_current() ==> report@.severity_current(),
            report@ == (ReportView {
                findings: start.findings + device_findings_upto(
                    texts(listed@),
                    opt_text(*filter),
                    i as int,
                ),
                overall_severity: report@.overall_severity,
                ..start
            }),
        decreases top - i,
    {
        assert(texts(listed@)[i as int] == listed[i as int]@);
        let line = trim(listed[i].as_str());
        let shown = match &lowered {
            Some(f) => str_contains(to_lowercase(line.as_str()).as_str(), f.as_str()),
            None => true,
        };
        if shown {
            report.add_finding(Finding::new(Severity::Info, "usb", line, None));
        }
        assert(report@.findings =~= start.findings + device_findings_upto(
            texts(listed@),
            opt_text(*filter),
            i + 1,
        ));
        i += 1;
    }
}

/// Appends the warnings on the first 10 of the problems.
fn add_problems(report: &mut DiagnosticReport, problems: &Vec<String>)
    ensures
        final(report)@ == (ReportView {
            findings: old(report)@.findings + problem_findings(
                texts(problems@),
                at_most(10, problems.len() as int),
            ),
            overall_severity: final(report)@.overall_severity,
            ..old(report)@
        }),
        old(report)@.severity_current() ==> final(report)@.severity_current(),
{
    let ghost start = report@;
    let top: usize = if 10 <= problems.len() {
        10
    } else {
        problems.len()
    };
    let mut i: usize = 0;
    assert(report@.findings =~= start.findings + problem_findings(texts(problems@), 0));
    while i < top
        invariant
            i <= top <= problems.len(),
            start.severity_current() ==> report@.severity_current(),
            report@ == (ReportView {
                findings: start.findings + problem_findings(texts(problems@), i as int),
                overall_severity: report@.overall_severity,
                ..start
            }),
        decreases top - i,
    {
        assert(texts(problems@)[i as int] == problems[i as int]@);
        report.add_finding(
            Finding::new(Severity::Warning, "dmesg", trim(problems[i].as_str()), None),
        );
        assert(report@.findings =~= start.findings + problem_findings(texts(problems@), i + 1));
        i += 1;
    }
}

/// The USB report for what was read: the number of devices, the devices
/// that `lsusb` lists, USB problems among the kernel messages where they are
/// asked for, and an `Info` finding where there is no data at all.
pub fn report(probe: &UsbProbe, config: &ModuleConfig) -> (r: DiagnosticReport)
    ensures
        r@ == usb_report(*probe, config@, r@.timestamp),
        r@.severity_current(),
{
    let mut report = DiagnosticReport::new("usb", "USB diagnostics");
    let filter = config.extra("device");
    let show_dmesg = config.flag("dmesg", false);
    if probe.lsusb_found {
        if let Some(out) = &probe.lsusb {
            let listed = nonblank_lines(out.as_str());
            report.add_metric(
                Metric::integer(
                    "USB devices (lsusb)".to_owned(),
                    to_signed(listed.len() as u64),
                    None,
                ),
            );
            add_listed(&mut report, &listed, &filter);
        }
    } else if let Some(names) = &probe.sysfs_devices {
        report.add_metric(
            Metric::integer("USB devices (sysfs)".to_owned(), to_signed(count_numbered(names)), None),
        );
    }
    assert(report@.metrics =~= usb_metrics(*probe));
    assert(report@.findings =~= listed_findings(*probe, config@.extra("device"@)));
    if show_dmesg {
        if let Some(out) = &probe.dmesg {
            let problems = usb_problems(out.as_str());
            add_problems(&mut report, &problems);
        }
    }
    assert(report@.findings =~= listed_findings(*probe, config@.extra("device"@))
        + kernel_findings(*probe, config@));
    if report.findings.len() == 0 && report.metrics.len() == 0 {
        report.add_finding(
            Finding::new(
                Severity::Info,
                "usb",
                "No USB devices or lsusb/sysfs data available.".to_owned(),
                None,
            ),
        );
    }
    report.add_recommendation(
        Recommendation::new(
            3,
            "Use 'lsusb -t' for tree view; 'dmesg | grep -i usb' for kernel messages.".to_owned(),
            Some("lsusb -t".to_owned()),
            "Helps identify enumeration or power issues.",
        ),
    );
    report.compute_overall_severity();
    proof {
        let want = usb_report(*probe, config@, report@.timestamp);
        assert(report@.findings =~= want.findings);
        assert(report@.recommendations =~= want.recommendations);
    }
    report
}

impl DiagnosticModule for UsbModule {
    open spec fn name_text(&self) -> Seq<char> {
        "usb"@
    }

    open spec fn description_text(&self) -> Seq<char> {
        "Diagnose USB device problems and enumeration"@
    }

    open spec fn available(&self) -> bool {
        true
    }

    open spec fn run_allows(
        &self,
        config: ModuleConfigView,
        outcome: Result<ReportView, ExecutionErrorView>,
    ) -> bool {
        outcome matches Ok(r) && r == usb_report(self.probe, config, r.timestamp)
    }

    fn name(&self) -> (r: &'static str) {
        "usb"
    }

    fn description(&self) -> (r: &'static str) {
        "Diagnose USB device problems and enumeration"
    }

    fn is_available(&self) -> (b: bool) {
        true
    }

    fn run(&self, config: &ModuleConfig) -> (r: Result<DiagnosticReport, ExecutionError>) {
        Ok(report(&self.probe, config))
    }
}

/// The USB module on what was read from the host.
pub fn module(probe: UsbProbe) -> (m: UsbModule)
    ensures
        m.probe == probe,
{
    UsbModule { probe }
}

/// On a host without `lsusb`, without USB devices in sysfs and without
/// kernel messages, the report holds exactly one finding, of severity
/// `Info`, and its overall severity is `Info`.
pub proof fn lemma_absent_usb_is_reported(probe: UsbProbe, config: ModuleConfigView, at: Timestamp)
    requires
        !probe.lsusb_found,
        probe.sysfs_devices is None,
        probe.dmesg is None,
    ensures
        usb_report(probe, config, at).findings == seq![no_data_finding()],
        usb_report(probe, config, at).overall_severity == Severity::Info,
{
    crate::framework::report::lemma_single_finding(no_data_finding());
    let found = listed_findings(probe, config.extra("device"@)) + kernel_findings(probe, config);
    assert(found =~= Seq::<FindingView>::empty());
    assert(found.push(no_data_finding()) =~= seq![no_data_finding()]);
}

} // verus!
