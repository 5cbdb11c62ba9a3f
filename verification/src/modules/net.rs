//! Network diagnostics: connectivity, latency, name resolution, interfaces.

use crate::framework::float_bits::{FloatBits, Reading, BITS_100, BITS_200, BITS_500};
use crate::framework::report::{
    assembled, severities, worst_of, DiagnosticReport, Finding, FindingView, Metric, MetricValue,
    MetricValueView, MetricView, Recommendation, RecommendationView, ReportView, Threshold,
    Timestamp,
};
use crate::framework::severity::Severity;
use crate::framework::traits::{
    DiagnosticModule, ExecutionError, ExecutionErrorView, ModuleConfig, ModuleConfigView,
};
use crate::utils::math::{as_signed, to_signed};
use crate::utils::parse::{plain_u64, u64_of};
use crate::utils::split::{lines, lines_of, split_whitespace, texts, words_of};
use crate::utils::text::{
    cat2, cat3, cat4, char_is_digit, chars_of, find_in, find_text, is_digit, seek, seek_from,
    str_eq, text_of, trim, trim_end_matches, trimmed, without_trailing,
};
use vstd::prelude::*;

verus! {

/// What came back from `ping`.
#[derive(Debug, Clone)]
pub struct PingOutcome {
    /// Standard output, invalid UTF-8 replaced.
    pub stdout: String,
    /// `ping` exited with status zero.
    pub success: bool,
    /// The average of the round-trip times in milliseconds that the output
    /// states, rendered without decimals; `None` where it states none.
    pub average: Option<Reading>,
}

/// What the network module reads from the host.
#[derive(Debug, Clone)]
pub struct NetProbe {
    /// What came back from `ping`, `None` where it could not be run.
    pub ping: Option<PingOutcome>,
    /// What `getent hosts` printed for the name to resolve, `None` where it failed.
    pub getent: Option<String>,
    /// `host` resolved the name.
    pub host_lookup_ok: bool,
    /// Content of `/proc/net/dev`, `None` where it is unreadable.
    pub net_dev: Option<String>,
}

/// The network module, on what it read.
#[derive(Debug, Clone)]
pub struct NetModule {
    pub probe: NetProbe,
}

/// The host that a run targets: the option `host`, or `8.8.8.8`.
pub open spec fn target_of(config: ModuleConfigView) -> Seq<char> {
    match config.extra("host"@) {
        Some(host) => host,
        None => "8.8.8.8"@,
    }
}

/// Whether a host is written as digits and dots only.
pub open spec fn is_numeric(host: Seq<char>) -> bool {
    forall|i: int| 0 <= i < host.len() ==> is_digit(#[trigger] host[i]) || host[i] == '.'
}

/// The name whose resolution is tested: the host, or `google.com` for a host
/// that is written as an address.
pub open spec fn name_to_resolve(host: Seq<char>) -> Seq<char> {
    if is_numeric(host) {
        "google.com"@
    } else {
        host
    }
}

/// The text of the round-trip time that a line of `ping` output states: what
/// follows the first `time=` up to the next space.
pub open spec fn time_text(line: Seq<char>) -> Option<Seq<char>> {
    match find_text(line, "time="@) {
        Some(start) => {
            let rest = line.subrange(start + "time="@.len(), line.len() as int);
            Some(rest.subrange(0, seek(rest, ' ', 0)))
        },
        None => None,
    }
}

/// The texts of the round-trip times that the first `n` lines state.
pub open spec fn times_upto(ls: Seq<Seq<char>>, n: int) -> Seq<Seq<char>>
    decreases n,
{
    if n <= 0 {
        Seq::empty()
    } else {
        match time_text(ls[n - 1]) {
            Some(t) => times_upto(ls, n - 1).push(t),
            None => times_upto(ls, n - 1),
        }
    }
}

/// The metric of the average latency, with thresholds at 100 and 500 ms.
pub open spec fn ping_metrics(ping: Option<PingOutcome>) -> Seq<MetricView> {
    match ping {
        Some(PingOutcome { average: Some(avg), .. }) => seq![
            MetricView {
                name: "Ping latency (avg)"@,
                value: MetricValueView::Float(avg.value),
                unit: Some("ms"@),
                threshold: Some(
                    Threshold {
                        warning: FloatBits { bits: BITS_100 },
                        critical: FloatBits { bits: BITS_500 },
                    },
                ),
            },
        ],
        _ => Seq::empty(),
    }
}

/// The finding on connectivity: a warning where the average latency is above
/// 200 ms or where `ping` failed without stating a time, a note where `ping`
/// could not be run.
pub open spec fn ping_findings(ping: Option<PingOutcome>, host: Seq<char>) -> Seq<FindingView> {
    match ping {
        None => seq![
            FindingView {
                severity: Severity::Info,
                category: "connectivity"@,
                message: "Could not run ping (command not found or error)."@,
                details: None,
            },
        ],
        Some(p) => match p.average {
            Some(avg) => if avg.value.spec_gt(FloatBits { bits: BITS_200 }) {
                seq![
                    FindingView {
                        severity: Severity::Warning,
                        category: "latency"@,
                        message: "High latency to "@ + host + " ("@ + avg.text@ + " ms avg)"@,
                        details: Some("Check WiFi, cable, or ISP."@),
                    },
                ]
            } else {
                Seq::empty()
            },
            None => if !p.success {
                seq![
                    FindingView {
                        severity: Severity::Warning,
                        category: "connectivity"@,
                        message: "Ping to "@ + host + " failed; host may be unreachable."@,
                        details: Some("Check firewall, routing, and DNS."@),
                    },
                ]
            } else {
                Seq::empty()
            },
        },
    }
}

/// The first line of a text, or the empty text.
pub open spec fn first_line_or_empty(s: Seq<char>) -> Seq<char> {
    if lines_of(s).len() > 0 {
        lines_of(s)[0]
    } else {
        Seq::empty()
    }
}

/// The finding on name resolution: success where `getent` printed an
/// address or `host` resolved the name, a note where neither worked, nothing
/// where `getent` ran and printed nothing.
pub open spec fn dns_findings(probe: NetProbe, name: Seq<char>) -> Seq<FindingView> {
    match probe.getent {
        Some(out) => if trimmed(out@).len() > 0 {
            seq![
                FindingView {
                    severity: Severity::Okay,
                    category: "dns"@,
                    message: "DNS resolution for "@ + name + " OK"@,
                    details: Some(first_line_or_empty(out@)),
                },
            ]
        } else {
            Seq::empty()
        },
        None => if probe.host_lookup_ok {
            seq![
                FindingView {
                    severity: Severity::Okay,
                    category: "dns"@,
                    message: "DNS resolution for "@ + name + " OK"@,
                    details: None,
                },
            ]
        } else {
            seq![
                FindingView {
                    severity: Severity::Info,
                    category: "dns"@,
                    message: "Could not verify DNS (getent/host not available or failed)."@,
                    details: None,
                },
            ]
        },
    }
}

/// The number that a field holds, or 0.
pub open spec fn count_or_zero(field: Seq<char>) -> u64 {
    match u64_of(field) {
        Some(n) => n,
        None => 0,
    }
}

/// The metrics of one line of `/proc/net/dev`: bytes received and sent by an
/// interface other than `lo` that has moved any.
pub open spec fn interface_metrics(line: Seq<char>) -> Seq<MetricView> {
    let parts = words_of(line);
    if parts.len() >= 10 {
        let name = without_trailing(parts[0], ':');
        let rx = count_or_zero(parts[1]);
        let tx = count_or_zero(parts[9]);
        if name != "lo"@ && (rx > 0 || tx > 0) {
            seq![
                MetricView {
                    name: name + " rx"@,
                    value: MetricValueView::Integer(as_signed(rx)),
                    unit: Some("bytes"@),
                    threshold: None,
                },
                MetricView {
                    name: name + " tx"@,
                    value: MetricValueView::Integer(as_signed(tx)),
                    unit: Some("bytes"@),
                    threshold: None,
                },
            ]
        } else {
            Seq::empty()
        }
    } else {
        Seq::empty()
    }
}

/// The metrics of the lines of `/proc/net/dev` before line `n`, without the
/// two header lines.
pub open spec fn interfaces_upto(ls: Seq<Seq<char>>, n: int) -> Seq<MetricView>
    decreases n,
{
    if n <= 2 {
        Seq::empty()
    } else {
        interfaces_upto(ls, n - 1) + interface_metrics(ls[n - 1])
    }
}

/// The metrics of the interfaces.
pub open spec fn all_interfaces(net_dev: Option<String>) -> Seq<MetricView> {
    match net_dev {
        Some(content) => interfaces_upto(lines_of(content@), lines_of(content@).len() as int),
        None => Seq::empty(),
    }
}

/// The recommendation of a report without issues.
pub open spec fn deeper_recommendation() -> RecommendationView {
    RecommendationView {
        priority: 3,
        action: "For deeper diagnosis use: ip addr, ip route, nmcli, traceroute."@,
        command: Some("ip addr show"@),
        explanation: "Check interfaces and routing."@,
    }
}

/// The network report for what was read, generated at `at`.
pub open spec fn net_report(probe: NetProbe, config: ModuleConfigView, at: Timestamp) -> ReportView {
    let host = target_of(config);
    let findings = ping_findings(probe.ping, host) + dns_findings(probe, name_to_resolve(host));
    assembled(
        "net"@,
        "Network diagnostics"@,
        at,
        findings,
        seq![
            MetricView {
                name: "Target host"@,
                value: MetricValueView::Text(host),
                unit: None,
                threshold: None,
            },
        ] + ping_metrics(probe.ping) + all_interfaces(probe.net_dev),
        if worst_of(severities(findings)) == Severity::Okay {
            seq![deeper_recommendation()]
        } else {
            Seq::empty()
        },
    )
}

/// The host that a run targets.
pub fn target_host(config: &ModuleConfig) -> (r: String)
    ensures
        r@ == target_of(config@),
{
    match config.extra("host") {
        Some(host) => host,
        None => "8.8.8.8".to_owned(),
    }
}

/// The name whose resolution is tested for a host.
pub fn dns_name(host: &str) -> (r: String)
    ensures
        r@ == name_to_resolve(host@),
{
    let chars = chars_of(host);
    let mut i: usize = 0;
    while i < chars.len()
        invariant
            i <= chars.len(),
            chars@ == host@,
            forall|k: int| 0 <= k < i ==> is_digit(#[trigger] chars@[k]) || chars@[k] == '.',
        decreases chars.len() - i,
    {
        if !(char_is_digit(chars[i]) || chars[i] == '.') {
            return host.to_owned();
        }
        i += 1;
    }
    "google.com".to_owned()
}

/// The texts of the round-trip times that the output of `ping` states, in order.
pub fn ping_times(stdout: &str) -> (r: Vec<String>)
    ensures
        texts(r@) == times_upto(lines_of(stdout@), lines_of(stdout@).len() as int),
{
    let ls = lines(stdout);
    let marker = chars_of("time=");
    let mut out: Vec<String> = Vec::new();
    let mut i: usize = 0;
    while i < ls.len()
        invariant
            i <= ls.len(),
            marker@ == "time="@,
            texts(ls@) == lines_of(stdout@),
            texts(out@) == times_upto(texts(ls@), i as int),
        decreases ls.len() - i,
    {
        let line = chars_of(ls[i].as_str());
        assert(texts(ls@)[i as int] == line@);
        let ghost before = texts(out@);
        if let Some(start) = find_in(line.as_slice(), marker.as_slice()) {
            let from: usize = start + marker.len();
            let rest = vstd::slice::slice_subrange(line.as_slice(), from, line.len());
            let end = seek_from(rest, ' ', 0);
            let time = text_of(rest, 0, end);
            out.push(time);
            assert(texts(out@) =~= before.push(time@));
        }
        i += 1;
    }
    out
}

/// Appends the metrics of the interfaces.
fn add_interfaces(report: &mut DiagnosticReport, net_dev: &Option<String>)
    ensures
        final(report)@ == (ReportView {
            metrics: old(report)@.metrics + all_interfaces(*net_dev),
            ..old(report)@
        }),
{
    let ghost start = report@;
    if let Some(content) = net_dev {
        let ls = lines(content.as_str());
        let mut i: usize = 2;
        if ls.len() < 2 {
            assert(report@.metrics =~= start.metrics + all_interfaces(*net_dev));
            return ;
        }
        assert(report@.metrics =~= start.metrics + interfaces_upto(texts(ls@), 2));
        while i < ls.len()
            invariant
                2 <= i <= ls.len(),
                texts(ls@) == lines_of(content@),
                report@ == (ReportView {
                    metrics: start.metrics + interfaces_upto(texts(ls@), i as int),
                    ..start
                }),
            decreases ls.len() - i,
        {
            assert(texts(ls@)[i as int] == ls[i as int]@);
            let parts = split_whitespace(ls[i].as_str());
            if parts.len() >= 10 {
                assert(texts(parts@)[0] == parts[0]@);
                assert(texts(parts@)[1] == parts[1]@);
                assert(texts(parts@)[9] == parts[9]@);
                let name = trim_end_matches(parts[0].as_str(), ':');
                if !str_eq(name.as_str(), "lo") {
                    let rx = match plain_u64(parts[1].as_str()) {
                        Some(n) => n,
                        None => 0,
                    };
                    let tx = match plain_u64(parts[9].as_str()) {
                        Some(n) => n,
                        None => 0,
                    };
                    if rx > 0 || tx > 0 {
                        report.add_metric(
                            Metric::integer(
                                cat2(name.as_str(), " rx"),
                                to_signed(rx),
                                Some("bytes".to_owned()),
                            ),
                        );
                        report.add_metric(
                            Metric::integer(
                                cat2(name.as_str(), " tx"),
                                to_signed(tx),
                                Some("bytes".to_owned()),
                            ),
                        );
                    }
                }
            }
            assert(report@.metrics =~= start.metrics + interfaces_upto(texts(ls@), i + 1));
            i += 1;
        }
    } else {
        assert(report@.metrics =~= start.metrics + all_interfaces(*net_dev));
    }
}

/// The network report for what was read: the target host, the latency and
/// reachability that `ping` showed, whether names resolve, and the traffic
/// of the interfaces.
pub fn report(probe: &NetProbe, config: &ModuleConfig) -> (r: DiagnosticReport)
    ensures
        r@ == net_report(*probe, config@, r@.timestamp),
        r@.severity_current(),
{
    let host = target_host(config);
    let mut report = DiagnosticReport::new("net", "Network diagnostics");
    report.add_metric(Metric::text("Target host".to_owned(), host.clone()));
    match &probe.ping {
        Some(p) => {
            match &p.average {
                Some(avg) => {
                    report.add_metric(
                        Metric::new(
                            "Ping latency (avg)".to_owned(),
                            MetricValue::Float(avg.value),
                            Some("ms".to_owned()),
                            Some(Threshold::of_bits(BITS_100, BITS_500)),
                        ),
                    );
                    if avg.value.gt(FloatBits::new(BITS_200)) {
                        report.add_finding(
                            Finding::new(
                                Severity::Warning,
                                "latency",
                                cat2(
                                    cat4(
                                        "High latency to ",
                                        host.as_str(),
                                        " (",
                                        avg.text.as_str(),
                                    ).as_str(),
                                    " ms avg)",
                                ),
                                Some("Check WiFi, cable, or ISP.".to_owned()),
                            ),
                        );
                    }
                },
                None => {
                    if !p.success {
                        report.add_finding(
                            Finding::new(
                                Severity::Warning,
                                "connectivity",
                                cat3(
                                    "Ping to ",
                                    host.as_str(),
                                    " failed; host may be unreachable.",
                                ),
                                Some("Check firewall, routing, and DNS.".to_owned()),
                            ),
                        );
                    }
                },
            }
        },
        None => {
            report.add_finding(
                Finding::new(
                    Severity::Info,
                    "connectivity",
                    "Could not run ping (command not found or error).".to_owned(),
                    None,
                ),
            );
        },
    }
    assert(report@.findings =~= ping_findings(probe.ping, host@));
    let hostname = dns_name(host.as_str());
    match &probe.getent {
        Some(out) => {
            if trim(out.as_str()).as_str().unicode_len() > 0 {
                let mut ls = lines(out.as_str());
                let first = if ls.len() > 0 {
                    ls.swap_remove(0)
                } else {
                    String::new()
                };
                report.add_finding(
                    Finding::new(
                        Severity::Okay,
                        "dns",
                        cat3("DNS resolution for ", hostname.as_str(), " OK"),
                        Some(first),
                    ),
                );
            }
        },
        None => {
            if probe.host_lookup_ok {
                report.add_finding(
                    Finding::new(
                        Severity::Okay,
                        "dns",
                        cat3("DNS resolution for ", hostname.as_str(), " OK"),
                        None,
                    ),
                );
            } else {
                report.add_finding(
                    Finding::new(
                        Severity::Info,
                        "dns",
                        "Could not verify DNS (getent/host not available or failed).".to_owned(),
                        None,
                    ),
                );
            }
        },
    }
    assert(report@.findings =~= ping_findings(probe.ping, host@) + dns_findings(
        *probe,
        hostname@,
    ));
    add_interfaces(&mut report, &probe.net_dev);
    if report.overall_severity.level() == 0 {
        report.add_recommendation(
            Recommendation::new(
                3,
                "For deeper diagnosis use: ip addr, ip route, nmcli, traceroute.".to_owned(),
                Some("ip addr show".to_owned()),
                "Check interfaces and routing.",
            ),
        );
    }
    report.compute_overall_severity();
    proof {
        assert(report@.metrics =~= net_report(*probe, config@, report@.timestamp).metrics);
        assert(report@.recommendations =~= net_report(
            *probe,
            config@,
            report@.timestamp,
        ).recommendations);
    }
    report
}

impl DiagnosticModule for NetModule {
    open spec fn name_text(&self) -> Seq<char> {
        "net"@
    }

    open spec fn description_text(&self) -> Seq<char> {
        "Diagnose network issues: connectivity, DNS, interfaces"@
    }

    open spec fn available(&self) -> bool {
        true
    }

    open spec fn run_allows(
        &self,
        config: ModuleConfigView,
        outcome: Result<ReportView, ExecutionErrorView>,
    ) -> bool {
        outcome matches Ok(r) && r == net_report(self.probe, config, r.timestamp)
    }

    fn name(&self) -> (r: &'static str) {
        "net"
    }

    fn description(&self) -> (r: &'static str) {
        "Diagnose network issues: connectivity, DNS, interfaces"
    }

    fn is_available(&self) -> (b: bool) {
        true
    }

    fn run(&self, config: &ModuleConfig) -> (r: Result<DiagnosticReport, ExecutionError>) {
        Ok(report(&self.probe, config))
    }
}

/// The network module on what was read from the host.
pub fn module(probe: NetProbe) -> (m: NetModule)
    ensures
        m.probe == probe,
{
    NetModule { probe }
}

} // verus!
