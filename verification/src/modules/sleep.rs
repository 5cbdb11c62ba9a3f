//! Sleep and suspend diagnostics: inhibitors and wakeups.

use crate::framework::report::{
    assembled, DiagnosticReport, Finding, FindingView, Metric, MetricValueView, MetricView,
    Recommendation, RecommendationView, ReportView, Timestamp,
};
use crate::framework::severity::Severity;
use crate::framework::traits::{
    DiagnosticModule, ExecutionError, ExecutionErrorView, ModuleConfig, ModuleConfigView,
};
use crate::utils::math::{as_signed, at_most, to_signed};
use crate::utils::parse::{i64_of, parse_i64};
use crate::utils::split::{nonblank, nonblank_lines, texts};
use crate::utils::text::{cat2, trim, trimmed};
use vstd::prelude::*;

verus! {

/// What the sleep module reads from the host.
#[derive(Debug, Clone)]
pub struct SleepProbe {
    /// What `systemd-inhibit --list` printed, `None` where it is not
    /// installed or failed.
    pub inhibitors: Option<String>,
    /// Content of `/sys/power/wakeup_count`, `None` where it is missing or
    /// unreadable.
    pub wakeup_count: Option<String>,
}

/// The sleep module, on what it read.
#[derive(Debug, Clone)]
pub struct SleepModule {
    pub probe: SleepProbe,
}

/// The lines that `systemd-inhibit` printed, where the run looks at
/// inhibitors: unless the option `inhibitors` is set to something other
/// than `true`.
pub open spec fn blockers_of(probe: SleepProbe, config: ModuleConfigView) -> Option<
    Seq<Seq<char>>,
> {
    if config.flag("inhibitors"@, true) && probe.inhibitors is Some {
        Some(nonblank(probe.inhibitors->0@))
    } else {
        None
    }
}

/// The findings on the first `n` lines.
pub open spec fn inhibitor_findings(ls: Seq<Seq<char>>, n: int) -> Seq<FindingView>
    decreases n,
{
    if n <= 0 {
        Seq::empty()
    } else {
        inhibitor_findings(ls, n - 1).push(
            FindingView {
                severity: Severity::Info,
                category: "inhibit"@,
                message: "Inhibitor: "@ + trimmed(ls[n - 1]),
                details: None,
            },
        )
    }
}

/// The findings on inhibitors: one for each of the first five lines where
/// there is more than one line, else that none is active.
pub open spec fn blocker_findings(blockers: Option<Seq<Seq<char>>>) -> Seq<FindingView> {
    match blockers {
        Some(ls) => if ls.len() > 1 {
            inhibitor_findings(ls, at_most(5, ls.len() as int))
        } else {
            seq![
                FindingView {
                    severity: Severity::Okay,
                    category: "sleep"@,
                    message: "No sleep inhibitors active."@,
                    details: None,
                },
            ]
        },
        None => Seq::empty(),
    }
}

/// A metric that holds a count.
pub open spec fn count_metric(name: Seq<char>, n: i64) -> MetricView {
    MetricView { name, value: MetricValueView::Integer(n), unit: None, threshold: None }
}

/// The number of wakeups that the file states, 0 where it states none.
pub open spec fn wakeups_of(content: Seq<char>) -> i64 {
    match i64_of(trimmed(content)) {
        Some(n) => n,
        None => 0,
    }
}

/// The metrics of a sleep report.
pub open spec fn sleep_metrics(probe: SleepProbe, blockers: Option<Seq<Seq<char>>>) -> Seq<
    MetricView,
> {
    (match blockers {
        Some(ls) => if ls.len() > 1 {
            seq![count_metric("Active inhibitors"@, as_signed(ls.len() as u64))]
        } else {
            Seq::empty()
        },
        None => Seq::empty(),
    }) + (match probe.wakeup_count {
        Some(content) => seq![count_metric("Wakeup count"@, wakeups_of(content@))],
        None => Seq::empty(),
    })
}

/// The recommendations of a sleep report: to review the inhibitors where
/// there are more than three lines, and to check the journal.
pub open spec fn sleep_recommendations(blockers: Option<Seq<Seq<char>>>) -> Seq<
    RecommendationView,
> {
    (match blockers {
        Some(ls) => if ls.len() > 3 {
            seq![
                RecommendationView {
                    priority: 2,
                    action: "Review what is blocking sleep: systemd-inhibit --list."@,
                    command: Some("systemd-inhibit --list"@),
                    explanation: "Apps (e.g. VLC, SSH) can prevent suspend."@,
                },
            ]
        } else {
            Seq::empty()
        },
        None => Seq::empty(),
    }) + seq![
        RecommendationView {
            priority: 3,
            action: "Check journal for suspend/resume: journalctl -b -u sleep.target."@,
            command: Some("journalctl -b -u sleep.target"@),
            explanation: "Shows last sleep/resume events."@,
        },
    ]
}

/// The sleep report for what was read, generated at `at`.
pub open spec fn sleep_report(probe: SleepProbe, config: ModuleConfigView, at: Timestamp) -> ReportView {
    let blockers = blockers_of(probe, config);
    let found = blocker_findings(blockers);
    let metrics = sleep_metrics(probe, blockers);
    assembled(
        "sleep"@,
        "Sleep/suspend diagnostics"@,
        at,
        if found.len() == 0 && metrics.len() == 0 {
            found.push(
                FindingView {
                    severity: Severity::Info,
                    category: "sleep"@,
                    message: "No inhibitor or wakeup data available (systemd-inhibit or /sys/power)."@,
                    details: None,
                },
            )
        } else {
            found
        },
        metrics,
        sleep_recommendations(blockers),
    )
}

/// Appends the findings on the first five inhibitors.
fn add_inhibitors(report: &mut DiagnosticReport, blockers: &Vec<String>)
    ensures
        final(report)@ == (ReportView {
            findings: old(report)@.findings + inhibitor_findings(
                texts(blockers@),
                at_most(5, blockers.len() as int),
            ),
            overall_severity: final(report)@.overall_severity,
            ..old(report)@
        }),
        old(report)@.severity_current() ==> final(report)@.severity_current(),
{
    let ghost start = report@;
    let top: usize = if 5 <= blockers.len() {
        5
    } else {
        blockers.len()
    };
    let mut i: usize = 0;
    assert(report@.findings =~= start.findings + inhibitor_findings(texts(blockers@), 0));
    while i < top
        invariant
            i <= top <= blockers.len(),
            start.severity_current() ==> report@.severity_current(),
            report@ == (ReportView {
                findings: start.findings + inhibitor_findings(texts(blockers@), i as int),
                overall_severity: report@.overall_severity,
                ..start
            }),
        decreases top - i,
    {
        assert(texts(blockers@)[i as int] == blockers[i as int]@);
        report.add_finding(
            Finding::new(
                Severity::Info,
                "inhibit",
                cat2("Inhibitor: ", trim(blockers[i].as_str()).as_str()),
                None,
            ),
        );
        assert(report@.findings =~= start.findings + inhibitor_findings(
            texts(blockers@),
            i + 1,
        ));
        i += 1;
    }
}

/// The sleep report for what was read: the active inhibitors, the number
/// of wakeups, and an `Info` finding where there is no data at all.
pub fn report(probe: &SleepProbe, config: &ModuleConfig) -> (r: DiagnosticReport)
    ensures
        r@ == sleep_report(*probe, config@, r@.timestamp),
        r@.severity_current(),
{
    let mut report = DiagnosticReport::new("sleep", "Sleep/suspend diagnostics");
    let ghost blockers_spec = blockers_of(*probe, config@);
    if config.flag("inhibitors", true) {
        if let Some(out) = &probe.inhibitors {
            let blockers = nonblank_lines(out.as_str());
            if blockers.len() > 1 {
                report.add_metric(
                    Metric::integer(
                        "Active inhibitors".to_owned(),
                        to_signed(blockers.len() as u64),
                        None,
                    ),
                );
                add_inhibitors(&mut report, &blockers);
                if blockers.len() > 3 {
                    report.add_recommendation(
                        Recommendation::new(
                            2,
                            "Review what is blocking sleep: systemd-inhibit --list.".to_owned(),
                            Some("systemd-inhibit --list".to_owned()),
                            "Apps (e.g. VLC, SSH) can prevent suspend.",
                        ),
                    );
                }
            } else {
                report.add_finding(
                    Finding::new(
                        Severity::Okay,
                        "sleep",
                        "No sleep inhibitors active.".to_owned(),
                        None,
                    ),
                );
            }
        }
    }
    assert(report@.findings =~= blocker_findings(blockers_spec));
    if let Some(content) = &probe.wakeup_count {
        let count = match parse_i64(content.as_str()) {
            Some(n) => n,
            None => 0,
        };
        report.add_metric(Metric::integer("Wakeup count".to_owned(), count, None));
    }
    assert(report@.metrics =~= sleep_metrics(*probe, blockers_spec));
    if report.findings.len() == 0 && report.metrics.len() == 0 {
        report.add_finding(
            Finding::new(
                Severity::Info,
                "sleep",
                "No inhibitor or wakeup data available (systemd-inhibit or /sys/power).".to_owned(),
                None,
            ),
        );
    }
    report.add_recommendation(
        Recommendation::new(
            3,
            "Check journal for suspend/resume: journalctl -b -u sleep.target.".to_owned(),
            Some("journalctl -b -u sleep.target".to_owned()),
            "Shows last sleep/resume events.",
        ),
    );
    report.compute_overall_severity();
    proof {
        let want = sleep_report(*probe, config@, report@.timestamp);
        assert(report@.findings =~= want.findings);
        assert(report@.recommendations =~= want.recommendations);
    }
    report
}

impl DiagnosticModule for SleepModule {
    open spec fn name_text(&self) -> Seq<char> {
        "sleep"@
    }

    open spec fn description_text(&self) -> Seq<char> {
        "Diagnose sleep/suspend issues and inhibitors"@
    }

    open spec fn available(&self) -> bool {
        true
    }

    open spec fn run_allows(
        &self,
        config: ModuleConfigView,
        outcome: Result<ReportView, ExecutionErrorView>,
    ) -> bool {
        outcome matches Ok(r) && r == sleep_report(self.probe, config, r.timestamp)
    }

    fn name(&self) -> (r: &'static str) {
        "sleep"
    }

    fn description(&self) -> (r: &'static str) {
        "Diagnose sleep/suspend issues and inhibitors"
    }

    fn is_available(&self) -> (b: bool) {
        true
    }

    fn run(&self, config: &ModuleConfig) -> (r: Result<DiagnosticReport, ExecutionError>) {
        Ok(report(&self.probe, config))
    }
}

/// The sleep module on what was read from the host.
pub fn module(probe: SleepProbe) -> (m: SleepModule)
    ensures
        m.probe == probe,
{
    SleepModule { probe }
}

/// On a host without inhibitor list and wakeup count, the report holds
/// exactly one finding, of severity `Info`, and its overall severity is `Info`.
pub proof fn lemma_absent_sleep_data_is_reported(
    probe: SleepProbe,
    config: ModuleConfigView,
    at: Timestamp,
)
    requires
        probe.inhibitors is None,
        probe.wakeup_count is None,
    ensures
        sleep_report(probe, config, at).findings.len() == 1,
        sleep_report(probe, config, at).findings[0].severity == Severity::Info,
        sleep_report(probe, config, at).overall_severity == Severity::Info,
{
    let found = blocker_findings(blockers_of(probe, config));
    assert(found =~= Seq::<FindingView>::empty());
    let metrics = sleep_metrics(probe, blockers_of(probe, config));
    assert(metrics =~= Seq::<MetricView>::empty());
    let all = sleep_report(probe, config, at).findings;
    assert(all =~= seq![all[0]]);
    crate::framework::report::lemma_single_finding(all[0]);
}

} // verus!
