//! The report model: construction, appends, and the overall severity.

use rustwhy::framework::float_bits as fb;
use rustwhy::framework::float_bits::{BITS_10, BITS_20};
use rustwhy::framework::{
    DiagnosticReport, Finding, FloatBits, Metric, MetricValue, ModuleConfig, Recommendation,
    Severity, Threshold,
};

fn finding(severity: Severity) -> Finding {
    Finding {
        severity,
        category: "test".to_string(),
        message: format!("{:?} finding", severity),
        details: None,
    }
}

fn fold(levels: &[Severity]) -> Severity {
    levels.iter().fold(Severity::Okay, |worst, s| worst.max(*s))
}

#[test]
fn new_report_is_empty_and_okay() {
    let report = DiagnosticReport::new("cpu", "CPU diagnostics");
    assert_eq!(report.module, "cpu");
    assert_eq!(report.summary, "CPU diagnostics");
    assert_eq!(report.overall_severity, Severity::Okay);
    assert!(report.findings.is_empty());
    assert!(report.metrics.is_empty());
    assert!(report.recommendations.is_empty());
    assert!(report.raw_data.is_none());
    assert!(report.timestamp.secs > 1_600_000_000);
    assert!(report.timestamp.nanos < 2_000_000_000);
}

#[test]
fn warning_then_info_stays_warning() {
    let mut report = DiagnosticReport::new("cpu", "…");
    report.add_finding(finding(Severity::Warning));
    report.add_finding(finding(Severity::Info));
    assert_eq!(report.overall_severity, Severity::Warning);
    assert_eq!(report.findings.len(), 2);
    assert_eq!(report.findings[0].severity, Severity::Warning);
    assert_eq!(report.findings[1].severity, Severity::Info);
}

#[test]
fn overall_severity_is_the_fold_of_max() {
    let runs: Vec<Vec<Severity>> = vec![
        vec![],
        vec![Severity::Okay],
        vec![Severity::Info, Severity::Okay],
        vec![Severity::Info, Severity::Warning, Severity::Info],
        vec![Severity::Critical, Severity::Okay, Severity::Info, Severity::Warning],
        vec![Severity::Okay, Severity::Okay, Severity::Okay],
        vec![Severity::Warning, Severity::Critical, Severity::Warning],
    ];
    for levels in runs {
        let mut report = DiagnosticReport::new("m", "s");
        for level in &levels {
            report.add_finding(finding(*level));
        }
        assert_eq!(report.overall_severity, fold(&levels));
        let before = report.overall_severity;
        report.compute_overall_severity();
        assert_eq!(report.overall_severity, before);
    }
}

#[test]
fn critical_is_sticky() {
    let mut report = DiagnosticReport::new("m", "s");
    report.add_finding(finding(Severity::Info));
    report.add_finding(finding(Severity::Critical));
    for level in [Severity::Okay, Severity::Info, Severity::Warning, Severity::Info] {
        report.add_finding(finding(level));
        assert_eq!(report.overall_severity, Severity::Critical);
    }
}

#[test]
fn recompute_of_a_fresh_report_changes_nothing() {
    let mut report = DiagnosticReport::new("m", "s");
    report.compute_overall_severity();
    assert_eq!(report.overall_severity, Severity::Okay);
    report.compute_overall_severity();
    assert_eq!(report.overall_severity, Severity::Okay);
}

#[test]
fn recompute_repairs_a_manual_edit() {
    let mut report = DiagnosticReport::new("m", "s");
    report.add_finding(finding(Severity::Critical));
    report.findings.clear();
    report.findings.push(finding(Severity::Info));
    assert_eq!(report.overall_severity, Severity::Critical);
    report.compute_overall_severity();
    assert_eq!(report.overall_severity, Severity::Info);
}

#[test]
fn metrics_and_recommendations_do_not_escalate() {
    let mut report = DiagnosticReport::new("m", "s");
    report.add_metric(Metric {
        name: "capacity".to_string(),
        value: MetricValue::Integer(5),
        unit: Some("%".to_string()),
        threshold: Some(Threshold::of_bits(BITS_20, BITS_10)),
    });
    report.add_metric(Metric::text("name".to_string(), "value".to_string()));
    report.add_metric(Metric::integer("count".to_string(), -3, None));
    report.add_recommendation(Recommendation {
        priority: 1,
        action: "act".to_string(),
        command: Some("cmd".to_string()),
        explanation: "because".to_string(),
    });
    assert_eq!(report.overall_severity, Severity::Okay);
    assert_eq!(report.metrics.len(), 3);
    assert_eq!(report.metrics[0].name, "capacity");
    assert_eq!(report.metrics[1].unit, None);
    assert_eq!(report.metrics[2].name, "count");
    assert_eq!(report.recommendations.len(), 1);
    assert_eq!(report.recommendations[0].priority, 1);
    let threshold = report.metrics[0].threshold.unwrap();
    assert_eq!(f64::from_bits(threshold.warning.bits), 20.0);
    assert_eq!(f64::from_bits(threshold.critical.bits), 10.0);
}

#[test]
fn constructors_keep_their_fields() {
    let f = Finding::new(Severity::Info, "cat", "msg".to_string(), Some("more".to_string()));
    assert_eq!(f.severity, Severity::Info);
    assert_eq!(f.category, "cat");
    assert_eq!(f.message, "msg");
    assert_eq!(f.details.as_deref(), Some("more"));
    let r = Recommendation::new(2, "act".to_string(), None, "why");
    assert_eq!((r.priority, r.action.as_str(), r.command, r.explanation.as_str()), (2, "act", None, "why"));
    let m = Metric::new("n".to_string(), MetricValue::Boolean(true), None, None);
    assert_eq!(m.name, "n");
    assert!(matches!(m.value, MetricValue::Boolean(true)));
}

#[test]
fn findings_can_be_queried() {
    let mut report = DiagnosticReport::new("m", "s");
    assert!(!report.any_category("test"));
    assert!(!report.any_severity_from(Severity::Okay));
    report.add_finding(finding(Severity::Info));
    assert!(report.any_category("test"));
    assert!(!report.any_category("tes"));
    assert!(report.any_severity_from(Severity::Info));
    assert!(!report.any_severity_from(Severity::Warning));
    report.add_finding(finding(Severity::Critical));
    assert!(report.any_severity_from(Severity::Warning));
}

#[test]
fn config_defaults_and_options() {
    let mut config = ModuleConfig::default();
    assert!(!config.verbose);
    assert!(!config.watch);
    assert_eq!(config.interval, 2);
    assert_eq!(config.top_n, 10);
    assert!(!config.json_output);
    assert!(config.extra_args.is_empty());
    assert_eq!(config.extra("path"), None);
    assert!(config.flag("swap", true));
    assert!(!config.flag("nfs", false));
    config.set_extra("path", "/var");
    config.set_extra("nfs", "true");
    config.set_extra("swap", "false");
    assert_eq!(config.extra("path").as_deref(), Some("/var"));
    assert!(config.flag("nfs", false));
    assert!(!config.flag("swap", true));
    config.set_extra("path", "/home");
    assert_eq!(config.extra("path").as_deref(), Some("/home"));
    config.set_extra("nfs", "yes");
    assert!(!config.flag("nfs", true));
}

#[test]
fn float_order_matches_the_hardware() {
    let samples: [f64; 22] = [
        0.0,
        -0.0,
        0.5,
        -0.5,
        1.0,
        4.999,
        5.0,
        50.0,
        79.99999,
        80.0,
        80.00001,
        90.0,
        95.0,
        1000.0,
        -1000.0,
        1e300,
        -1e300,
        f64::MIN_POSITIVE,
        f64::INFINITY,
        f64::NEG_INFINITY,
        f64::NAN,
        -f64::NAN,
    ];
    for a in samples {
        for b in samples {
            let x = FloatBits::new(a.to_bits());
            let y = FloatBits::new(b.to_bits());
            assert_eq!(x.gt(y), a > b, "{} > {}", a, b);
            assert_eq!(x.ge(y), a >= b, "{} >= {}", a, b);
            assert_eq!(x.lt(y), a < b, "{} < {}", a, b);
            if !a.is_nan() && !b.is_nan() {
                assert_eq!(x.order_key() > y.order_key(), a > b, "key {} > {}", a, b);
            }
        }
        assert_eq!(FloatBits::new(a.to_bits()).nan(), a.is_nan());
    }
}

#[test]
fn float_constants_are_what_they_say() {
    let table: [(u64, f64); 16] = [
        (fb::BITS_HALF, 0.5),
        (fb::BITS_5, 5.0),
        (fb::BITS_10, 10.0),
        (fb::BITS_15, 15.0),
        (fb::BITS_20, 20.0),
        (fb::BITS_30, 30.0),
        (fb::BITS_50, 50.0),
        (fb::BITS_70, 70.0),
        (fb::BITS_75, 75.0),
        (fb::BITS_80, 80.0),
        (fb::BITS_85, 85.0),
        (fb::BITS_90, 90.0),
        (fb::BITS_95, 95.0),
        (fb::BITS_100, 100.0),
        (fb::BITS_200, 200.0),
        (fb::BITS_500, 500.0),
    ];
    for (bits, value) in table {
        assert_eq!(f64::from_bits(bits), value);
    }
    assert_eq!(f64::from_bits(rustwhy::modules::boot::BITS_1000), 1000.0);
    assert_eq!(f64::from_bits(fb::INFINITY_BITS), f64::INFINITY);
    assert_eq!(fb::SIGN_BIT, (-0.0f64).to_bits());
}
