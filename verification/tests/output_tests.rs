//! The terminal page of a report.

use rustwhy::framework::{
    DiagnosticReport, Finding, FloatBits, Metric, MetricValue, Recommendation, Severity,
};
use rustwhy::output::terminal::{
    compose, format_metric_value, paint, plain, severity_icon, urgency, write_report,
};
use rustwhy::output::write_report_terminal;

fn sample() -> DiagnosticReport {
    let mut report = DiagnosticReport::new("cpu", "Moderate CPU usage");
    report.add_metric(Metric::text("Load Average".to_string(), "1.00 / 2.00".to_string()));
    report.add_metric(Metric::new(
        "CPU Usage".to_string(),
        MetricValue::Float(FloatBits::new(56.25f64.to_bits())),
        Some("%".to_string()),
        None,
    ));
    report.add_metric(Metric::integer("CPU Cores".to_string(), 8, None));
    report.add_finding(Finding::new(
        Severity::Warning,
        "process",
        "build (PID 2) consuming 75.5% CPU".to_string(),
        Some("Memory: 2000 KB, User: 1000".to_string()),
    ));
    report.add_finding(Finding::new(Severity::Info, "process", "idle".to_string(), None));
    report.add_recommendation(Recommendation::new(1, "Reduce load".to_string(), None, "Less is more."));
    report.add_recommendation(Recommendation::new(5, "Wait".to_string(), None, "It may pass."));
    report
}

#[test]
fn icons_and_urgency() {
    assert_eq!(severity_icon(Severity::Okay, false), "✅ OK");
    assert_eq!(severity_icon(Severity::Info, true), "ℹ\u{fe0f}  INFO");
    assert_eq!(severity_icon(Severity::Warning, false), "⚠\u{fe0f}  WARNING");
    assert_eq!(severity_icon(Severity::Critical, true), "🔴 CRITICAL");
    assert_eq!(urgency(0), "HIGH");
    assert_eq!(urgency(2), "HIGH");
    assert_eq!(urgency(3), "MEDIUM");
    assert_eq!(urgency(4), "MEDIUM");
    assert_eq!(urgency(5), "LOW");
    assert_eq!(urgency(255), "LOW");
}

#[test]
fn metric_values_as_text() {
    assert_eq!(format_metric_value(&MetricValue::Integer(-12), "x"), "-12");
    assert_eq!(format_metric_value(&MetricValue::Float(FloatBits::new(0)), "0.00"), "0.00");
    assert_eq!(format_metric_value(&MetricValue::Text("plain".to_string()), "x"), "plain");
    assert_eq!(format_metric_value(&MetricValue::Boolean(true), "x"), "true");
    assert_eq!(format_metric_value(&MetricValue::Boolean(false), "x"), "false");
    let list = MetricValue::List(vec!["a".to_string(), "b".to_string(), "c".to_string()]);
    assert_eq!(format_metric_value(&list, "x"), "a, b, c");
    assert_eq!(format_metric_value(&MetricValue::List(vec![]), "x"), "");
}

#[test]
fn page_without_colors_is_laid_out_exactly() {
    let numbers = vec![String::new(), "56.25".to_string(), String::new()];
    let page = write_report(&sample(), false, &numbers);
    let expected = format!(
        "\nCPU DIAGNOSTICS\n{}\n\nOverall Status: ⚠\u{fe0f}  WARNING - Moderate CPU usage\n\n  Load Average: 1.00 / 2.00\n  CPU Usage: 56.25%\n  CPU Cores: 8\n\n💡 WHY is this happening?\n\n   ┌─ Finding: build (PID 2) consuming 75.5% CPU\n   │  → Memory: 2000 KB, User: 1000\n   └─ ⚠\u{fe0f}  WARNING\n   ┌─ Finding: idle\n   └─ ℹ\u{fe0f}  INFO\n\n📋 RECOMMENDATIONS:\n\n   1. [HIGH] Reduce load\n      → Less is more.\n   2. [LOW] Wait\n      → It may pass.\n\n",
        "═".repeat(60)
    );
    assert_eq!(page, expected);
    assert_eq!(write_report_terminal(&sample(), false, &numbers), expected);
}

#[test]
fn empty_report_has_no_blocks() {
    let report = DiagnosticReport::new("batt", "Battery status OK.");
    let page = write_report(&report, false, &Vec::new());
    let expected = format!(
        "\nBATT DIAGNOSTICS\n{}\n\nOverall Status: ✅ OK - Battery status OK.\n\n",
        "═".repeat(60)
    );
    assert_eq!(page, expected);
}

#[test]
fn parts_keep_their_shape_when_painted() {
    let mut report = sample();
    report.add_recommendation(Recommendation::new(
        3,
        "Look".to_string(),
        Some("top -n 1".to_string()),
        "See for yourself.",
    ));
    let numbers = vec![String::new(), "56.25".to_string()];
    let bare = plain(&report, &numbers);
    assert_eq!(bare.title, "CPU DIAGNOSTICS");
    assert_eq!(bare.metrics, vec!["  Load Average: 1.00 / 2.00", "  CPU Usage: 56.25%", "  CPU Cores: 8"]);
    assert_eq!(bare.details.len(), 2);
    assert_eq!(bare.details[0].as_deref(), Some("   │  → Memory: 2000 KB, User: 1000"));
    assert_eq!(bare.details[1], None);
    assert_eq!(bare.actions[2], "   3. [MEDIUM] Look");
    assert_eq!(bare.commands, vec![None, None, Some("top -n 1".to_string())]);
    for use_color in [false, true] {
        let painted = paint(&bare, use_color);
        assert_eq!(painted.metrics.len(), 3);
        assert_eq!(painted.actions.len(), 3);
        assert_eq!(painted.details[1], None);
        assert!(painted.details[0].as_deref().unwrap().contains("Memory: 2000 KB"));
        assert!(painted.commands[2].as_deref().unwrap().contains("top -n 1"));
        assert!(painted.title.contains("CPU DIAGNOSTICS"));
        let page = compose(&report, &painted);
        assert!(page.contains("   3. [MEDIUM] Look"));
        assert!(page.contains("      $ "));
        assert!(page.contains("      → See for yourself.\n"));
        assert!(page.ends_with("\n\n"));
    }
    let unpainted = paint(&bare, false);
    assert_eq!(unpainted.title, bare.title);
    assert_eq!(unpainted.metrics, bare.metrics);
    assert_eq!(unpainted.details, bare.details);
    assert_eq!(unpainted.actions, bare.actions);
}
