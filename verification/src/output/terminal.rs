//! Terminal output for diagnostic reports: the page, and the parts of it that carry colors.

use crate::framework::report::{
    opt_text, DiagnosticReport, Finding, FindingView, Metric, MetricValue, MetricValueView,
    MetricView, Recommendation, RecommendationView, ReportView,
};
use crate::framework::severity::Severity;
use crate::utils::format::{
    bool_text, bool_to_string, decimal_text, i64_to_string, signed_text, u64_to_string,
};
use crate::utils::split::{join, joined, texts};
use crate::utils::text::{cat2, cat3, cat4, cat5, to_uppercase, uppercase_of};
use vstd::prelude::*;
use vstd::string::StringExecFns;

verus! {

/// The parts of a page that may carry colors, each as the text to print.
#[derive(Debug, Clone)]
pub struct Parts {
    /// The title.
    pub title: String,
    /// One line for each metric.
    pub metrics: Vec<String>,
    /// The line of details of each finding that has details.
    pub details: Vec<Option<String>>,
    /// The headline of each recommendation.
    pub actions: Vec<String>,
    /// The command of each recommendation that has one.
    pub commands: Vec<Option<String>>,
}

/// Mathematical content of [`Parts`].
pub ghost struct PartsView {
    pub title: Seq<char>,
    pub metrics: Seq<Seq<char>>,
    pub details: Seq<Option<Seq<char>>>,
    pub actions: Seq<Seq<char>>,
    pub commands: Seq<Option<Seq<char>>>,
}

/// The texts of a list of optional strings.
pub open spec fn opt_texts(v: Seq<Option<String>>) -> Seq<Option<Seq<char>>> {
    v.map_values(|o: Option<String>| opt_text(o))
}

impl View for Parts {
    type V = PartsView;

    open spec fn view(&self) -> PartsView {
        PartsView {
            title: self.title@,
            metrics: texts(self.metrics@),
            details: opt_texts(self.details@),
            actions: texts(self.actions@),
            commands: opt_texts(self.commands@),
        }
    }
}

/// The rule below the title: sixty double horizontal lines.
pub open spec fn rule() -> Seq<char> {
    "\u{2550}\u{2550}\u{2550}\u{2550}\u{2550}\u{2550}\u{2550}\u{2550}\u{2550}\u{2550}\u{2550}\u{2550}\u{2550}\u{2550}\u{2550}\u{2550}\u{2550}\u{2550}\u{2550}\u{2550}\u{2550}\u{2550}\u{2550}\u{2550}\u{2550}\u{2550}\u{2550}\u{2550}\u{2550}\u{2550}\u{2550}\u{2550}\u{2550}\u{2550}\u{2550}\u{2550}\u{2550}\u{2550}\u{2550}\u{2550}\u{2550}\u{2550}\u{2550}\u{2550}\u{2550}\u{2550}\u{2550}\u{2550}\u{2550}\u{2550}\u{2550}\u{2550}\u{2550}\u{2550}\u{2550}\u{2550}\u{2550}\u{2550}\u{2550}\u{2550}"@
}

/// The icon and label of a severity.
pub open spec fn icon_of(s: Severity) -> Seq<char> {
    match s {
        Severity::Okay => "\u{2705} OK"@,
        Severity::Info => "\u{2139}\u{fe0f}  INFO"@,
        Severity::Warning => "\u{26a0}\u{fe0f}  WARNING"@,
        Severity::Critical => "\u{1f534} CRITICAL"@,
    }
}

/// How urgent a priority is: HIGH up to 2, MEDIUM up to 4, else LOW.
pub open spec fn urgency_of(priority: u8) -> Seq<char> {
    if priority <= 2 {
        "HIGH"@
    } else if priority <= 4 {
        "MEDIUM"@
    } else {
        "LOW"@
    }
}

/// The text of a metric's value, where `number` is the text of a real number.
pub open spec fn value_text(v: MetricValueView, number: Seq<char>) -> Seq<char> {
    match v {
        MetricValueView::Integer(n) => signed_text(n as int),
        MetricValueView::Float(_) => number,
        MetricValueView::Text(s) => s,
        MetricValueView::Boolean(b) => bool_text(b),
        MetricValueView::List(l) => joined(l, ", "@),
    }
}

/// The text of the real number of metric `i`, or the empty text where none is given.
pub open spec fn number_at(numbers: Seq<Seq<char>>, i: int) -> Seq<char> {
    if 0 <= i < numbers.len() {
        numbers[i]
    } else {
        Seq::empty()
    }
}

/// The line of a metric: name, value and unit.
pub open spec fn metric_line(m: MetricView, number: Seq<char>) -> Seq<char> {
    "  "@ + m.name + ": "@ + value_text(m.value, number) + match m.unit {
        Some(unit) => unit,
        None => Seq::empty(),
    }
}

/// The headline of recommendation `i`: its number, urgency and action.
pub open spec fn action_line(r: RecommendationView, i: int) -> Seq<char> {
    "   "@ + decimal_text((i + 1) as nat) + ". ["@ + urgency_of(r.priority) + "] "@ + r.action
}

/// The line of a finding's details.
pub open spec fn details_line(f: FindingView) -> Option<Seq<char>> {
    match f.details {
        Some(d) => Some("   \u{2502}  \u{2192} "@ + d),
        None => None,
    }
}

/// The parts of a report's page before any color is applied, where `numbers`
/// holds for each metric the text of its value if that is a real number.
pub open spec fn plain_parts(report: ReportView, numbers: Seq<Seq<char>>) -> PartsView {
    PartsView {
        title: uppercase_of(report.module) + " DIAGNOSTICS"@,
        metrics: Seq::new(
            report.metrics.len(),
            |i: int| metric_line(report.metrics[i], number_at(numbers, i)),
        ),
        details: report.findings.map_values(|f: FindingView| details_line(f)),
        actions: Seq::new(
            report.recommendations.len(),
            |i: int| action_line(report.recommendations[i], i),
        ),
        commands: report.recommendations.map_values(|r: RecommendationView| r.command),
    }
}

/// Whether `parts` has a part for each part of `plain`.
pub open spec fn same_shape(parts: PartsView, plain: PartsView) -> bool {
    &&& parts.metrics.len() == plain.metrics.len()
    &&& parts.actions.len() == plain.actions.len()
    &&& parts.details.len() == plain.details.len()
    &&& parts.commands.len() == plain.commands.len()
    &&& forall|i: int|
        0 <= i < plain.details.len() ==> ((#[trigger] parts.details[i]) is Some
            <==> plain.details[i] is Some)
    &&& forall|i: int|
        0 <= i < plain.commands.len() ==> ((#[trigger] parts.commands[i]) is Some
            <==> plain.commands[i] is Some)
}

/// The part at index `i`, or the empty text where there is none.
pub open spec fn text_at(parts: Seq<Seq<char>>, i: int) -> Seq<char> {
    if 0 <= i < parts.len() {
        parts[i]
    } else {
        Seq::empty()
    }
}

/// The optional part at index `i`, or none where there is none.
pub open spec fn optional_at(parts: Seq<Option<Seq<char>>>, i: int) -> Option<Seq<char>> {
    if 0 <= i < parts.len() {
        parts[i]
    } else {
        None
    }
}

/// The lines of the first `n` metrics.
pub open spec fn metric_block(lines: Seq<Seq<char>>, n: int) -> Seq<char>
    decreases n,
{
    if n <= 0 {
        Seq::empty()
    } else {
        metric_block(lines, n - 1) + lines[n - 1] + "\n"@
    }
}

/// The lines of one finding: message, details where it has any, and icon.
pub open spec fn finding_lines(f: FindingView, details: Option<Seq<char>>) -> Seq<char> {
    "   \u{250c}\u{2500} Finding: "@ + f.message + "\n"@ + (match details {
        Some(line) => line + "\n"@,
        None => Seq::empty(),
    }) + "   \u{2514}\u{2500} "@ + icon_of(f.severity) + "\n"@
}

/// The lines of the first `n` findings.
pub open spec fn finding_block(
    findings: Seq<FindingView>,
    details: Seq<Option<Seq<char>>>,
    n: int,
) -> Seq<char>
    decreases n,
{
    if n <= 0 {
        Seq::empty()
    } else {
        finding_block(findings, details, n - 1) + finding_lines(
            findings[n - 1],
            optional_at(details, n - 1),
        )
    }
}

/// The lines of one recommendation: headline, command where it has one,
/// and explanation.
pub open spec fn recommendation_lines(
    r: RecommendationView,
    action: Seq<char>,
    command: Option<Seq<char>>,
) -> Seq<char> {
    action + "\n"@ + (match command {
        Some(c) => "      $ "@ + c + "\n"@,
        None => Seq::empty(),
    }) + "      \u{2192} "@ + r.explanation + "\n"@
}

/// The lines of the first `n` recommendations.
pub open spec fn recommendation_block(
    recs: Seq<RecommendationView>,
    actions: Seq<Seq<char>>,
    commands: Seq<Option<Seq<char>>>,
    n: int,
) -> Seq<char>
    decreases n,
{
    if n <= 0 {
        Seq::empty()
    } else {
        recommendation_block(recs, actions, commands, n - 1) + recommendation_lines(
            recs[n - 1],
            text_at(actions, n - 1),
            optional_at(commands, n - 1),
        )
    }
}

/// The page of a report: title and rule, the overall status, then the
/// metrics, the findings and the recommendations, each block only where the
/// report has any, and an empty line at the end. A part that is missing
/// counts as empty.
pub open spec fn page(report: ReportView, parts: PartsView) -> Seq<char> {
    "\n"@ + parts.title + "\n"@ + rule() + "\n"@ + "\nOverall Status: "@ + icon_of(
        report.overall_severity,
    ) + " - "@ + report.summary + "\n"@ + (if report.metrics.len() > 0 {
        "\n"@ + metric_block(parts.metrics, parts.metrics.len() as int)
    } else {
        Seq::empty()
    }) + (if report.findings.len() > 0 {
        "\n\u{1f4a1} WHY is this happening?\n\n"@ + finding_block(
            report.findings,
            parts.details,
            report.findings.len() as int,
        )
    } else {
        Seq::empty()
    }) + (if report.recommendations.len() > 0 {
        "\n\u{1f4cb} RECOMMENDATIONS:\n\n"@ + recommendation_block(
            report.recommendations,
            parts.actions,
            parts.commands,
            report.recommendations.len() as int,
        )
    } else {
        Seq::empty()
    }) + "\n"@
}

/// `colored::Colorize::bright_cyan` and `bold`, then `to_string`: the text as
/// a bold bright cyan title. Whether escape sequences are added depends on
/// the terminal and the environment, so nothing is claimed of the result.
#[verifier::external_body]
fn paint_title(text: &str) -> String {
    colored::Colorize::bold(colored::Colorize::bright_cyan(text)).to_string()
}

/// `colored::Colorize::bright_white`, then `to_string`. Nothing is claimed
/// of the result: it depends on the terminal and the environment.
#[verifier::external_body]
fn paint_metric(text: &str) -> String {
    colored::Colorize::bright_white(text).to_string()
}

/// `colored::Colorize::dimmed`, then `to_string`. Nothing is claimed of the
/// result: it depends on the terminal and the environment.
#[verifier::external_body]
fn paint_dimmed(text: &str) -> String {
    colored::Colorize::dimmed(text).to_string()
}

/// `colored::Colorize::bright_yellow`, then `to_string`. Nothing is claimed
/// of the result: it depends on the terminal and the environment.
#[verifier::external_body]
fn paint_action(text: &str) -> String {
    colored::Colorize::bright_yellow(text).to_string()
}

/// The icon and label of a severity.
pub fn severity_icon(s: Severity, _use_color: bool) -> (r: String)
    ensures
        r@ == icon_of(s),
{
    match s {
        Severity::Okay => "\u{2705} OK".to_owned(),
        Severity::Info => "\u{2139}\u{fe0f}  INFO".to_owned(),
        Severity::Warning => "\u{26a0}\u{fe0f}  WARNING".to_owned(),
        Severity::Critical => "\u{1f534} CRITICAL".to_owned(),
    }
}

/// How urgent a priority is.
pub fn urgency(priority: u8) -> (r: &'static str)
    ensures
        r@ == urgency_of(priority),
{
    if priority <= 2 {
        "HIGH"
    } else if priority <= 4 {
        "MEDIUM"
    } else {
        "LOW"
    }
}

/// The text of a metric's value, where `number` is the text of the value if
/// it is a real number.
pub fn format_metric_value(v: &MetricValue, number: &str) -> (r: String)
    ensures
        r@ == value_text(v@, number@),
{
    match v {
        MetricValue::Integer(n) => i64_to_string(*n),
        MetricValue::Float(_) => number.to_owned(),
        MetricValue::Text(s) => s.clone(),
        MetricValue::Boolean(b) => bool_to_string(*b),
        MetricValue::List(l) => join(l, ", "),
    }
}

/// The parts of a report's page before any color is applied.
pub fn plain(report: &DiagnosticReport, numbers: &Vec<String>) -> (r: Parts)
    ensures
        r@ == plain_parts(report@, texts(numbers@)),
{
    let title = cat2(to_uppercase(report.module.as_str()).as_str(), " DIAGNOSTICS");
    let mut metrics: Vec<String> = Vec::new();
    let mut i: usize = 0;
    while i < report.metrics.len()
        invariant
            i <= report.metrics.len(),
            metrics.len() == i,
            forall|k: int|
                0 <= k < i ==> (#[trigger] metrics[k])@ == metric_line(
                    report@.metrics[k],
                    number_at(texts(numbers@), k),
                ),
        decreases report.metrics.len() - i,
    {
        let m = &report.metrics[i];
        let value = if i < numbers.len() {
            assert(texts(numbers@)[i as int] == numbers[i as int]@);
            format_metric_value(&m.value, numbers[i].as_str())
        } else {
            format_metric_value(&m.value, String::new().as_str())
        };
        let line = match &m.unit {
            Some(unit) => cat5("  ", m.name.as_str(), ": ", value.as_str(), unit.as_str()),
            None => cat4("  ", m.name.as_str(), ": ", value.as_str()),
        };
        assert(report@.metrics[i as int] == m@);
        assert(line@ =~= metric_line(report@.metrics[i as int], number_at(texts(numbers@), i as int)));
        metrics.push(line);
        i += 1;
    }
    let mut details: Vec<Option<String>> = Vec::new();
    let mut f: usize = 0;
    while f < report.findings.len()
        invariant
            f <= report.findings.len(),
            details.len() == f,
            forall|k: int|
                0 <= k < f ==> opt_text(#[trigger] details[k]) == details_line(report@.findings[k]),
        decreases report.findings.len() - f,
    {
        let line = match &report.findings[f].details {
            Some(d) => Some(cat2("   \u{2502}  \u{2192} ", d.as_str())),
            None => None,
        };
        details.push(line);
        f += 1;
    }
    let mut actions: Vec<String> = Vec::new();
    let mut commands: Vec<Option<String>> = Vec::new();
    let mut r: usize = 0;
    while r < report.recommendations.len()
        invariant
            r <= report.recommendations.len(),
            actions.len() == r,
            commands.len() == r,
            forall|k: int|
                0 <= k < r ==> (#[trigger] actions[k])@ == action_line(
                    report@.recommendations[k],
                    k,
                ),
            forall|k: int|
                0 <= k < r ==> opt_text(#[trigger] commands[k])
                    == report@.recommendations[k].command,
        decreases report.recommendations.len() - r,
    {
        let rec = &report.recommendations[r];
        let number: u64 = r as u64 + 1;
        let line = cat2(
            cat5("   ", u64_to_string(number).as_str(), ". [", urgency(rec.priority), "] ").as_str(),
            rec.action.as_str(),
        );
        actions.push(line);
        commands.push(
            match &rec.command {
                Some(c) => Some(c.clone()),
                None => None,
            },
        );
        r += 1;
    }
    let parts = Parts { title, metrics, details, actions, commands };
    proof {
        let want = plain_parts(report@, texts(numbers@));
        assert(parts@.metrics =~= want.metrics);
        assert(parts@.details =~= want.details);
        assert(parts@.actions =~= want.actions);
        assert(parts@.commands =~= want.commands);
    }
    parts
}

/// The parts with their colors: with colors, the title, the metrics, the
/// details and the headlines are painted; commands are dimmed in any case.
pub fn paint(plain: &Parts, use_color: bool) -> (r: Parts)
    ensures
        same_shape(r@, plain@),
        !use_color ==> r@ == (PartsView { commands: r@.commands, ..plain@ }),
{
    let title = if use_color {
        paint_title(plain.title.as_str())
    } else {
        plain.title.clone()
    };
    let mut metrics: Vec<String> = Vec::new();
    let mut i: usize = 0;
    while i < plain.metrics.len()
        invariant
            i <= plain.metrics.len(),
            metrics.len() == i,
            !use_color ==> texts(metrics@) == texts(plain.metrics@).take(i as int),
        decreases plain.metrics.len() - i,
    {
        metrics.push(
            if use_color {
                paint_metric(plain.metrics[i].as_str())
            } else {
                plain.metrics[i].clone()
            },
        );
        assert(!use_color ==> texts(metrics@) =~= texts(plain.metrics@).take(i + 1));
        i += 1;
    }
    let mut details: Vec<Option<String>> = Vec::new();
    let mut f: usize = 0;
    while f < plain.details.len()
        invariant
            f <= plain.details.len(),
            details.len() == f,
            forall|k: int| 0 <= k < f ==> ((#[trigger] details[k]) is Some <==> plain.details[k] is Some),
            !use_color ==> opt_texts(details@) == opt_texts(plain.details@).take(f as int),
        decreases plain.details.len() - f,
    {
        details.push(
            match &plain.details[f] {
                Some(d) => Some(
                    if use_color {
                        paint_dimmed(d.as_str())
                    } else {
                        d.clone()
                    },
                ),
                None => None,
            },
        );
        assert(!use_color ==> opt_texts(details@) =~= opt_texts(plain.details@).take(f + 1));
        f += 1;
    }
    let mut actions: Vec<String> = Vec::new();
    let mut a: usize = 0;
    while a < plain.actions.len()
        invariant
            a <= plain.actions.len(),
            actions.len() == a,
            !use_color ==> texts(actions@) == texts(plain.actions@).take(a as int),
        decreases plain.actions.len() - a,
    {
        actions.push(
            if use_color {
                paint_action(plain.actions[a].as_str())
            } else {
                plain.actions[a].clone()
            },
        );
        assert(!use_color ==> texts(actions@) =~= texts(plain.actions@).take(a + 1));
        a += 1;
    }
    let mut commands: Vec<Option<String>> = Vec::new();
    let mut c: usize = 0;
    while c < plain.commands.len()
        invariant
            c <= plain.commands.len(),
            commands.len() == c,
            forall|k: int|
                0 <= k < c ==> ((#[trigger] commands[k]) is Some <==> plain.commands[k] is Some),
        decreases plain.commands.len() - c,
    {
        commands.push(
            match &plain.commands[c] {
                Some(command) => Some(paint_dimmed(command.as_str())),
                None => None,
            },
        );
        c += 1;
    }
    let parts = Parts { title, metrics, details, actions, commands };
    proof {
        assert(texts(plain.metrics@).take(plain.metrics.len() as int) =~= texts(plain.metrics@));
        assert(texts(plain.actions@).take(plain.actions.len() as int) =~= texts(plain.actions@));
        assert(opt_texts(plain.details@).take(plain.details.len() as int) =~= opt_texts(
            plain.details@,
        ));
        assert forall|k: int| 0 <= k < plain@.details.len() implies ((#[trigger] parts@.details[k]) is Some
            <==> plain@.details[k] is Some) by {
            assert(parts@.details[k] == opt_text(details[k]));
            assert(plain@.details[k] == opt_text(plain.details[k]));
        }
        assert forall|k: int| 0 <= k < plain@.commands.len() implies ((#[trigger] parts@.commands[k]) is Some
            <==> plain@.commands[k] is Some) by {
            assert(parts@.commands[k] == opt_text(commands[k]));
            assert(plain@.commands[k] == opt_text(plain.commands[k]));
        }
    }
    parts
}

/// The page of a report, laid out from its parts.
pub fn compose(report: &DiagnosticReport, parts: &Parts) -> (r: String)
    ensures
        r@ == page(report@, parts@),
{
    let mut out = cat4("\n", parts.title.as_str(), "\n", "\u{2550}\u{2550}\u{2550}\u{2550}\u{2550}\u{2550}\u{2550}\u{2550}\u{2550}\u{2550}\u{2550}\u{2550}\u{2550}\u{2550}\u{2550}\u{2550}\u{2550}\u{2550}\u{2550}\u{2550}\u{2550}\u{2550}\u{2550}\u{2550}\u{2550}\u{2550}\u{2550}\u{2550}\u{2550}\u{2550}\u{2550}\u{2550}\u{2550}\u{2550}\u{2550}\u{2550}\u{2550}\u{2550}\u{2550}\u{2550}\u{2550}\u{2550}\u{2550}\u{2550}\u{2550}\u{2550}\u{2550}\u{2550}\u{2550}\u{2550}\u{2550}\u{2550}\u{2550}\u{2550}\u{2550}\u{2550}\u{2550}\u{2550}\u{2550}\u{2550}");
    out.append("\n");
    out.append("\nOverall Status: ");
    out.append(severity_icon(report.overall_severity, false).as_str());
    out.append(" - ");
    out.append(report.summary.as_str());
    out.append("\n");
    if report.metrics.len() > 0 {
        out.append("\n");
        let ghost start = out@;
        let mut i: usize = 0;
        assert(out@ =~= start + metric_block(parts@.metrics, 0));
        while i < parts.metrics.len()
            invariant
                i <= parts.metrics.len(),
                out@ == start + metric_block(parts@.metrics, i as int),
            decreases parts.metrics.len() - i,
        {
            assert(parts@.metrics[i as int] == parts.metrics[i as int]@);
            out.append(parts.metrics[i].as_str());
            out.append("\n");
            assert(out@ =~= start + metric_block(parts@.metrics, i + 1));
            i += 1;
        }
    }
    if report.findings.len() > 0 {
        out.append("\n\u{1f4a1} WHY is this happening?\n\n");
        let ghost start = out@;
        let mut i: usize = 0;
        assert(out@ =~= start + finding_block(report@.findings, parts@.details, 0));
        while i < report.findings.len()
            invariant
                i <= report.findings.len(),
                out@ == start + finding_block(report@.findings, parts@.details, i as int),
            decreases report.findings.len() - i,
        {
            let ghost before = out@;
            let f = &report.findings[i];
            out.append("   \u{250c}\u{2500} Finding: ");
            out.append(f.message.as_str());
            out.append("\n");
            if i < parts.details.len() {
                assert(parts@.details[i as int] == opt_text(parts.details[i as int]));
                if let Some(line) = &parts.details[i] {
                    out.append(line.as_str());
                    out.append("\n");
                }
            }
            out.append("   \u{2514}\u{2500} ");
            out.append(severity_icon(f.severity, false).as_str());
            out.append("\n");
            assert(out@ =~= before + finding_lines(
                report@.findings[i as int],
                optional_at(parts@.details, i as int),
            ));
            assert(out@ =~= start + finding_block(report@.findings, parts@.details, i + 1));
            i += 1;
        }
    }
    if report.recommendations.len() > 0 {
        out.append("\n\u{1f4cb} RECOMMENDATIONS:\n\n");
        let ghost start = out@;
        let mut i: usize = 0;
        assert(out@ =~= start + recommendation_block(
            report@.recommendations,
            parts@.actions,
            parts@.commands,
            0,
        ));
        while i < report.recommendations.len()
            invariant
                i <= report.recommendations.len(),
                out@ == start + recommendation_block(
                    report@.recommendations,
                    parts@.actions,
                    parts@.commands,
                    i as int,
                ),
            decreases report.recommendations.len() - i,
        {
            let ghost before = out@;
            let rec = &report.recommendations[i];
            if i < parts.actions.len() {
                assert(parts@.actions[i as int] == parts.actions[i as int]@);
                out.append(parts.actions[i].as_str());
            }
            out.append("\n");
            if i < parts.commands.len() {
                assert(parts@.commands[i as int] == opt_text(parts.commands[i as int]));
                if let Some(command) = &parts.commands[i] {
                    out.append("      $ ");
                    out.append(command.as_str());
                    out.append("\n");
                }
            }
            out.append("      \u{2192} ");
            out.append(rec.explanation.as_str());
            out.append("\n");
            assert(out@ =~= before + recommendation_lines(
                report@.recommendations[i as int],
                text_at(parts@.actions, i as int),
                optional_at(parts@.commands, i as int),
            ));
            assert(out@ =~= start + recommendation_block(
                report@.recommendations,
                parts@.actions,
                parts@.commands,
                i + 1,
            ));
            i += 1;
        }
    }
    out.append("\n");
    assert(out@ =~= page(report@, parts@));
    out
}

/// The page of a diagnostic report for the terminal, where `numbers` holds
/// for each metric the text of its value if that is a real number.
///
/// Without colors the page is laid out from the plain parts, but for the
/// commands of the recommendations, which are dimmed in any case.
pub fn write_report(report: &DiagnosticReport, use_color: bool, numbers: &Vec<String>) -> (r: String)
    ensures
        exists|parts: PartsView|
            {
                &&& same_shape(parts, plain_parts(report@, texts(numbers@)))
                &&& !use_color ==> parts == (PartsView {
                    commands: parts.commands,
                    ..plain_parts(report@, texts(numbers@))
                })
                &&& r@ == #[trigger] page(report@, parts)
            },
{
    let parts = paint(&plain(report, numbers), use_color);
    compose(report, &parts)
}

} // verus!
